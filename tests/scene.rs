use ears_skin::container::AlfalfaData;
use ears_skin::error::EarsError;
use ears_skin::features::{EarAnchor, EarMode, EarsFeatures, WingData, WingMode};
use ears_skin::imaging::encode_png;
use ears_skin::pixels::{PixelBuffer, Rgb};
use ears_skin::region::{encode_regions, AlfalfaEraseEntryData};
use ears_skin::render::{decompose_for_render, graphics_context, prepare_scene, SceneCharacterSettings, WasmPlayerModel};
use ears_skin::save::{plan_feature_save, recompose_for_save, FeatureWriter};
use ears_skin::settings::FeatureSettings;
use ears_skin::workspace::EarsImageWorkspace;

fn skin() -> PixelBuffer {
    PixelBuffer::new(2, 1, vec![9, 9, 9, 255, 1, 2, 3, 255]).unwrap()
}

fn wing_image() -> PixelBuffer {
    PixelBuffer::new(1, 1, vec![9, 9, 9, 200]).unwrap()
}

fn features() -> EarsFeatures {
    EarsFeatures {
        ear_mode: EarMode::Above,
        ear_anchor: EarAnchor::Center,
        tail: None,
        snout: None,
        wing: Some(WingData { mode: WingMode::SymmetricSingle, animated: false }),
        claws: false,
        horn: false,
        chest_size: 0,
        cape_enabled: true,
        emissive: true,
        data_version: 0,
    }
}

#[test]
fn graphics_context_is_available() {
    assert!(graphics_context().is_some());
}

#[test]
fn character_settings_start_switched_off() {
    let s = SceneCharacterSettings::new();
    assert!(!s.is_slim && !s.has_hat_layer && !s.has_ears && !s.has_layers && !s.has_cape);
}

#[test]
fn decomposition_builds_every_layer() {
    let mut c = AlfalfaData::new();
    c.set("wing".to_string(), encode_png(&wing_image()).unwrap());
    c.set("erase".to_string(), encode_regions(&vec![AlfalfaEraseEntryData { x: 1, y: 0, width: 1, height: 1 }]));
    let palette = Some(vec![Rgb { r: 9, g: 9, b: 9 }]);
    let layers = decompose_for_render(skin(), &Some(c), &palette).unwrap();
    assert_eq!(layers.skin.data(), &vec![9, 9, 9, 255, 0, 0, 0, 0]);
    assert_eq!(layers.emissive_skin.unwrap().data(), &vec![9, 9, 9, 255, 0, 0, 0, 0]);
    assert_eq!(layers.wings.unwrap().data(), wing_image().data());
    assert_eq!(layers.emissive_wings.unwrap().data(), &vec![9, 9, 9, 200]);
    assert!(layers.cape.is_none() && layers.emissive_cape.is_none());
}

#[test]
fn decomposition_without_palette_has_no_overlays() {
    let mut c = AlfalfaData::new();
    c.set("cape".to_string(), encode_png(&wing_image()).unwrap());
    let layers = decompose_for_render(skin(), &Some(c), &None).unwrap();
    assert_eq!(layers.skin.data(), skin().data());
    assert!(layers.emissive_skin.is_none());
    assert_eq!(layers.cape.unwrap().data(), wing_image().data());
    assert!(layers.emissive_cape.is_none());
}

#[test]
fn corrupt_wing_image_is_reported() {
    let mut c = AlfalfaData::new();
    c.set("wing".to_string(), vec![1, 2, 3]);
    assert_eq!(decompose_for_render(skin(), &Some(c), &None).err(), Some(EarsError::DecodeError));
}

#[test]
fn scene_repairs_features_and_cape_switch() {
    let model = SceneCharacterSettings { is_slim: true, has_hat_layer: true, has_ears: true, has_layers: false, has_cape: true };
    let setup = prepare_scene(&model, skin(), Some(features()), &None, &None).unwrap();
    assert_eq!(setup.context.model, WasmPlayerModel::Alex);
    assert!(setup.context.has_hat_layer && !setup.context.has_layers);
    assert!(!setup.context.has_cape);
    let f = setup.context.ears_features.unwrap();
    assert_eq!(f.wing, None);
    assert!(!f.cape_enabled && !f.emissive);
    assert_eq!(setup.layers.skin.data(), skin().data());
}

#[test]
fn scene_without_ears_draws_plain_skin() {
    let mut c = AlfalfaData::new();
    c.set("wing".to_string(), vec![1, 2, 3]);
    let model = SceneCharacterSettings { has_cape: true, ..SceneCharacterSettings::new() };
    let setup = prepare_scene(&model, skin(), Some(features()), &Some(c), &None).unwrap();
    assert_eq!(setup.context.model, WasmPlayerModel::Steve);
    assert!(setup.context.ears_features.is_none());
    assert!(!setup.context.has_cape);
    assert!(setup.layers.wings.is_none());
}

#[test]
fn scene_keeps_backed_cape() {
    let mut c = AlfalfaData::new();
    c.set("cape".to_string(), encode_png(&wing_image()).unwrap());
    let model = SceneCharacterSettings { has_ears: true, has_cape: true, ..SceneCharacterSettings::new() };
    let setup = prepare_scene(&model, skin(), Some(features()), &Some(c), &Some(vec![Rgb { r: 1, g: 2, b: 3 }])).unwrap();
    assert!(setup.context.has_cape);
    assert!(setup.context.ears_features.unwrap().emissive);
    assert!(setup.layers.cape.is_some());
}

#[test]
fn save_plan_selects_writer_and_skips_empty_parts() {
    let s = FeatureSettings::from_features(features());
    let plan = plan_feature_save(s);
    assert_eq!(plan.writer, FeatureWriter::V0);
    assert!(plan.alfalfa.is_none());
    assert!(plan.palette.is_none());
    assert_eq!(plan.features, EarsFeatures { wing: None, cape_enabled: false, emissive: false, ..features() });

    let mut s = FeatureSettings::from_features(EarsFeatures { data_version: 1, ..features() });
    s.cape = Some(vec![7]);
    s.emissives.palette = vec![0xFF01_0203];
    let plan = plan_feature_save(s);
    assert_eq!(plan.writer, FeatureWriter::V1);
    assert!(plan.features.cape_enabled && plan.features.emissive);
    assert_eq!(plan.features.wing, None);
    assert_eq!(plan.alfalfa.unwrap().get(&"cape".to_string()), Some(&vec![7]));
    assert_eq!(plan.palette, Some(vec![Rgb { r: 1, g: 2, b: 3 }]));
}

#[test]
fn recompose_stores_regions_and_reports_emptiness() {
    let regions = vec![AlfalfaEraseEntryData { x: 2, y: 3, width: 4, height: 5 }];
    let saved = recompose_for_save(features(), AlfalfaData::new(), Some(vec![1]), None, true, &regions).unwrap();
    assert!(!saved.strip_alpha);
    assert!(saved.features.wing.is_some());
    assert!(!saved.features.cape_enabled);
    assert!(saved.features.emissive);
    assert_eq!(saved.container.get(&"wing".to_string()), Some(&vec![1]));
    assert_eq!(saved.container.get_erase_regions(), Ok(Some(regions)));
    let saved = recompose_for_save(EarsFeatures { wing: None, ..features() }, AlfalfaData::new(), Some(vec![1]), None, false, &vec![]).unwrap();
    assert!(!saved.features.emissive);
    assert!(saved.strip_alpha);
    assert!(saved.container.is_empty());
}

#[test]
fn workspace_edits_regions() {
    let mut c = AlfalfaData::with_version(1);
    c.set("erase".to_string(), vec![0, 0, 8, 8, 8, 8, 4, 4]);
    let mut w = EarsImageWorkspace::from_alfalfa(Some(c)).unwrap();
    assert_eq!(
        w.get_regions(),
        vec![AlfalfaEraseEntryData { x: 0, y: 0, width: 8, height: 8 }, AlfalfaEraseEntryData { x: 8, y: 8, width: 4, height: 4 }]
    );
    w.set_regions(vec![]);
    assert_eq!(w.prepare_encode(), Ok(true));
    assert!(w.alfalfa().is_empty());
    assert_eq!(w.alfalfa().version(), 1);
}

#[test]
fn workspace_without_container_starts_empty() {
    let mut w = EarsImageWorkspace::from_alfalfa(None).unwrap();
    assert!(w.get_regions().is_empty());
    w.set_regions(vec![AlfalfaEraseEntryData { x: 1, y: 1, width: 1, height: 1 }]);
    assert_eq!(w.prepare_encode(), Ok(false));
    assert_eq!(w.alfalfa().get(&"erase".to_string()), Some(&vec![1, 1, 1, 1]));
}

#[test]
fn workspace_rejects_corrupt_erase_blob() {
    let mut c = AlfalfaData::new();
    c.set("erase".to_string(), vec![1]);
    assert!(matches!(EarsImageWorkspace::from_alfalfa(Some(c)), Err(EarsError::DecodeError)));
}

#[test]
fn save_resets_wings_without_wing_image() {
    let f = EarsFeatures { wing: Some(WingData { mode: WingMode::SymmetricDual, animated: true }), ..features() };
    let plan = plan_feature_save(FeatureSettings::from_features(f));
    assert_eq!(plan.features.wing, None);
    assert!(!plan.features.cape_enabled);
}

#[test]
fn save_keeps_wings_backed_by_an_image() {
    let f = EarsFeatures { wing: Some(WingData { mode: WingMode::SymmetricDual, animated: true }), ..features() };
    let mut s = FeatureSettings::from_features(f);
    s.wings.wings = Some(vec![4, 5]);
    let plan = plan_feature_save(s);
    assert_eq!(plan.features.wing, Some(WingData { mode: WingMode::SymmetricDual, animated: true }));
    assert_eq!(plan.alfalfa.unwrap().get(&"wing".to_string()), Some(&vec![4, 5]));
}

#[test]
fn save_keeps_custom_entries_and_version() {
    let mut c = AlfalfaData::with_version(2);
    c.set("mymod:extra".to_string(), vec![1, 2, 3]);
    let s = FeatureSettings::from_features(features()).with_alfalfa(Some(c));
    let saved = plan_feature_save(s).alfalfa.unwrap();
    assert_eq!(saved.get(&"mymod:extra".to_string()), Some(&vec![1, 2, 3]));
    assert_eq!(saved.version(), 2);
    let reopened = FeatureSettings::from_features(features()).with_alfalfa(Some(saved));
    assert_eq!(reopened.alfalfa.unwrap().get(&"mymod:extra".to_string()), Some(&vec![1, 2, 3]));
}

#[test]
fn workspace_reopens_on_what_it_saved() {
    let mut c = AlfalfaData::with_version(1);
    c.set("custom".to_string(), vec![]);
    let mut w = EarsImageWorkspace::from_alfalfa(Some(c)).unwrap();
    let rs = vec![
        AlfalfaEraseEntryData { x: 9, y: 9, width: 1, height: 1 },
        AlfalfaEraseEntryData { x: 0, y: 0, width: 255, height: 255 },
        AlfalfaEraseEntryData { x: 9, y: 9, width: 1, height: 1 },
    ];
    w.set_regions(rs.clone());
    assert_eq!(w.prepare_encode(), Ok(false));
    let again = EarsImageWorkspace::from_alfalfa(Some(w.alfalfa().clone())).unwrap();
    assert_eq!(again.get_regions(), rs);
    assert_eq!(again.alfalfa().get(&"custom".to_string()), Some(&vec![]));
    assert_eq!(again.alfalfa().version(), 1);
}
