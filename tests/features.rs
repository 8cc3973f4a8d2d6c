use ears_skin::container::AlfalfaData;
use ears_skin::error::EarsError;
use ears_skin::features::{
    EarAnchor, EarMode, EarsFeatures, SnoutData, TailBends, TailData, TailMode, WingData, WingMode,
};
use ears_skin::pixels::Rgb;
use ears_skin::render::cleanup_invalid_ears_data;
use ears_skin::settings::{from_container, to_container, FeatureSettings, Protrusion, TextureSource, WingsAnimations};

fn sample_features() -> EarsFeatures {
    EarsFeatures {
        ear_mode: EarMode::Floppy,
        ear_anchor: EarAnchor::Back,
        tail: Some(TailData { mode: TailMode::Up, segments: 3, bends: TailBends(1.5f32.to_bits(), 0, (-2.0f32).to_bits(), 7) }),
        snout: Some(SnoutData { offset: 1, width: 4, height: 2, depth: 3 }),
        wing: Some(WingData { mode: WingMode::SymmetricDual, animated: true }),
        claws: true,
        horn: false,
        chest_size: 0.5f32.to_bits(),
        cape_enabled: true,
        emissive: true,
        data_version: 1,
    }
}

#[test]
fn enum_bytes_decode_in_declaration_order() {
    assert_eq!(EarMode::from_u8(0), Ok(EarMode::Disabled));
    assert_eq!(EarMode::from_u8(9), Ok(EarMode::TallCross));
    assert_eq!(EarMode::TallCross.to_u8(), 9);
    assert_eq!(EarAnchor::from_u8(2), Ok(EarAnchor::Back));
    assert_eq!(TailMode::from_u8(4), Ok(TailMode::Vertical));
    assert_eq!(WingMode::from_u8(3), Ok(WingMode::AsymmetricL));
    assert_eq!(WingMode::AsymmetricR.to_u8(), 4);
}

#[test]
fn enum_bytes_out_of_range_are_corrupt() {
    assert_eq!(EarMode::from_u8(10), Err(EarsError::DecodeError));
    assert_eq!(EarAnchor::from_u8(3), Err(EarsError::DecodeError));
    assert_eq!(TailMode::from_u8(5), Err(EarsError::DecodeError));
    assert_eq!(WingMode::from_u8(255), Err(EarsError::DecodeError));
}

#[test]
fn mapper_round_trip_for_well_formed_model() {
    let f = sample_features();
    assert_eq!(FeatureSettings::from_features(f).to_features(), f);
    let bare = EarsFeatures { tail: None, snout: None, wing: None, claws: false, horn: true, cape_enabled: false, ..f };
    assert_eq!(FeatureSettings::from_features(bare).to_features(), bare);
}

#[test]
fn absent_parts_become_disabled_with_zeroes() {
    let f = EarsFeatures { tail: None, wing: None, snout: None, ..sample_features() };
    let s = FeatureSettings::from_features(f);
    assert_eq!(s.tail.mode, TailMode::Disabled);
    assert_eq!(s.tail.segments, 0);
    assert_eq!(s.tail.bends, TailBends(0, 0, 0, 0));
    assert_eq!(s.wings.mode, WingMode::Disabled);
    assert_eq!(s.wings.animations, WingsAnimations::Disabled);
    assert!(s.snout.is_none());
    assert_eq!(s.protrusions, vec![Protrusion::Claws]);
    assert!(s.cape.is_none() && s.alfalfa.is_none());
}

#[test]
fn disabled_tail_drops_its_numbers() {
    let mut s = FeatureSettings::from_features(sample_features());
    s.tail.mode = TailMode::Disabled;
    s.tail.segments = 4;
    assert_eq!(s.to_features().tail, None);
}

#[test]
fn snout_length_becomes_depth() {
    let s = FeatureSettings::from_features(sample_features());
    let snout = s.snout.unwrap();
    assert_eq!((snout.width, snout.height, snout.length, snout.offset), (4, 2, 3, 1));
    assert_eq!(snout.source, TextureSource::SampleSkin);
}

#[test]
fn custom_key_survives_to_container() {
    let mut base = AlfalfaData::with_version(1);
    base.set("mymod:extra".to_string(), vec![1, 2, 3]);
    let c = to_container(&sample_features(), base, Some(vec![10]), Some(vec![20]));
    assert_eq!(c.get(&"mymod:extra".to_string()), Some(&vec![1, 2, 3]));
    assert_eq!(c.version(), 1);
    assert_eq!(from_container(&c), (Some(vec![10]), Some(vec![20])));
}

#[test]
fn disabled_features_store_no_images() {
    let f = EarsFeatures { wing: None, cape_enabled: false, ..sample_features() };
    let mut base = AlfalfaData::new();
    base.set("wing".to_string(), vec![5]);
    let c = to_container(&f, base, Some(vec![10]), Some(vec![20]));
    assert_eq!(from_container(&c), (None, None));
    assert!(c.is_empty());
}

#[test]
fn missing_image_bytes_store_nothing() {
    let c = to_container(&sample_features(), AlfalfaData::new(), None, None);
    assert!(c.is_empty());
}

#[test]
fn settings_take_images_from_container() {
    let mut c = AlfalfaData::new();
    c.set("wing".to_string(), vec![1]);
    c.set("cape".to_string(), vec![2]);
    let s = FeatureSettings::from_features(sample_features()).with_alfalfa(Some(c));
    assert_eq!(s.wings.wings, Some(vec![1]));
    assert_eq!(s.wings.source, TextureSource::YourSkin);
    assert_eq!(s.cape, Some(vec![2]));
    let s = s.with_alfalfa(None);
    assert_eq!(s.wings.wings, None);
    assert_eq!(s.wings.source, TextureSource::SampleSkin);
}

#[test]
fn settings_to_alfalfa_keeps_attached_entries() {
    let mut c = AlfalfaData::with_version(1);
    c.set("mymod:extra".to_string(), vec![1, 2, 3]);
    c.set("wing".to_string(), vec![9]);
    let s = FeatureSettings::from_features(sample_features()).with_alfalfa(Some(c));
    let out = s.to_alfalfa();
    assert_eq!(out.get(&"mymod:extra".to_string()), Some(&vec![1, 2, 3]));
    assert_eq!(out.get(&"wing".to_string()), Some(&vec![9]));
    assert_eq!(out.version(), 1);
}

#[test]
fn palette_is_packed_with_opaque_alpha() {
    let s = FeatureSettings::from_features(sample_features())
        .with_emissive(Some(vec![Rgb { r: 0x12, g: 0x34, b: 0x56 }, Rgb { r: 255, g: 0, b: 1 }]));
    assert_eq!(s.emissives.palette, vec![0xFF12_3456, 0xFFFF_0001]);
    assert_eq!(s.emissive_palette(), vec![Rgb { r: 0x12, g: 0x34, b: 0x56 }, Rgb { r: 255, g: 0, b: 1 }]);
    let cleared = s.with_emissive(None);
    assert!(cleared.emissives.palette.is_empty());
}

#[test]
fn repair_resets_wings_without_wing_image() {
    let mut f = EarsFeatures { cape_enabled: false, emissive: false, ..sample_features() };
    cleanup_invalid_ears_data(&mut f, &None, &None);
    assert_eq!(f.wing, None);
    assert_eq!(f.tail, sample_features().tail);
}

#[test]
fn repair_clears_each_unbacked_flag_and_is_idempotent() {
    let palette: Option<Vec<Rgb>> = None;
    let mut c = AlfalfaData::new();
    c.set("wing".to_string(), vec![1]);
    let alfalfa = Some(c);
    let mut once = sample_features();
    cleanup_invalid_ears_data(&mut once, &alfalfa, &palette);
    assert!(once.wing.is_some());
    assert!(!once.cape_enabled);
    assert!(!once.emissive);
    let mut twice = once;
    cleanup_invalid_ears_data(&mut twice, &alfalfa, &palette);
    assert_eq!(twice, once);
}

#[test]
fn repair_keeps_backed_flags() {
    let mut c = AlfalfaData::new();
    c.set("wing".to_string(), vec![1]);
    c.set("cape".to_string(), vec![2]);
    let mut f = sample_features();
    cleanup_invalid_ears_data(&mut f, &Some(c), &Some(vec![Rgb { r: 1, g: 2, b: 3 }]));
    assert_eq!(f, sample_features());
}

#[test]
fn disabled_wing_mode_stores_no_wing_image() {
    let f = EarsFeatures { wing: Some(WingData { mode: WingMode::Disabled, animated: false }), ..sample_features() };
    let c = to_container(&f, AlfalfaData::new(), Some(vec![10]), None);
    assert_eq!(from_container(&c).0, None);
}
