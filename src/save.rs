use vstd::prelude::*;
use crate::container::{AlfalfaData, with_erase_regions};
use crate::error::EarsError;
use crate::features::EarsFeatures;
use crate::pixels::{Rgb, rgb_of};
use crate::render::{repair_features, repaired};
use crate::region::AlfalfaEraseEntryData;
use crate::settings::{FeatureSettings, container_for, features_of, map_or_empty, opt_bytes, opt_wf, to_container};

verus! {

/// Which generation of the on-image feature layout to write.
#[derive(Clone, Copy, PartialEq, Eq, Structural, Debug)]
pub enum FeatureWriter {
    V0,
    V1,
}

/// What to write into a skin to persist edited settings.
#[derive(Clone, Debug)]
pub struct SavePlan {
    pub features: EarsFeatures,
    pub writer: FeatureWriter,
    /// The container to hide in the skin; `None` when it would be empty.
    pub alfalfa: Option<AlfalfaData>,
    /// The emissive palette to mark in the skin; `None` when it would be empty.
    pub palette: Option<Vec<Rgb>>,
}

/// The model that persists `s`: the model the settings describe, repaired
/// against the images and the palette the settings carry.
pub open spec fn saved_features(s: FeatureSettings) -> EarsFeatures {
    repaired(features_of(s), s.wings.wings is Some, s.cape is Some, s.emissives.palette@.len() > 0)
}

/// The container that persists `s`.
pub open spec fn saved_container(s: FeatureSettings) -> Map<Seq<char>, Seq<u8>> {
    container_for(saved_features(s), map_or_empty(s.alfalfa), opt_bytes(s.wings.wings), opt_bytes(s.cape))
}

/// The writer for a data version: version 0 has its own layout, every later one the newer layout.
pub open spec fn writer_for(data_version: u8) -> FeatureWriter {
    if data_version == 0 {
        FeatureWriter::V0
    } else {
        FeatureWriter::V1
    }
}

/// Decides what persisting edited settings writes: the feature model, repaired
/// so that no wing, cape or glow is claimed without its image or palette, with
/// the writer its data version selects; the container unless it is empty; and
/// the palette unless it is empty.
pub fn plan_feature_save(settings: FeatureSettings) -> (r: SavePlan)
    requires
        opt_wf(settings.alfalfa),
    ensures
        r.features == saved_features(settings),
        r.writer == writer_for(settings.data_version),
        r.alfalfa is None <==> saved_container(settings) == Map::<Seq<char>, Seq<u8>>::empty(),
        r.alfalfa matches Some(a) ==> a.wf() && a@ == saved_container(settings) && a.spec_version() == match settings.alfalfa {
            Some(b) => b.spec_version(),
            None => 0u8,
        },
        r.palette is None <==> settings.emissives.palette@.len() == 0,
        r.palette matches Some(p) ==> p@ == settings.emissives.palette@.map_values(|h: u32| rgb_of(h)),
{
    let mut features = settings.to_features();
    repair_features(&mut features, settings.wings.wings.is_some(), settings.cape.is_some(), settings.emissives.palette.len() > 0);
    let writer = if features.data_version == 0 { FeatureWriter::V0 } else { FeatureWriter::V1 };
    let colors = settings.emissive_palette();
    let palette = if colors.len() == 0 { None } else { Some(colors) };
    let container = settings.to_alfalfa();
    let alfalfa = if container.is_empty() { None } else { Some(container) };
    SavePlan { features, writer, alfalfa, palette }
}

/// The repaired model and the container to write back into a skin, and whether
/// the container is empty so that the transparency that would hide it can be dropped.
#[derive(Clone, Debug)]
pub struct SaveContainer {
    pub features: EarsFeatures,
    pub container: AlfalfaData,
    pub strip_alpha: bool,
}

/// Reassembles an edited skin's model and container: the model is repaired
/// against the wing and cape images given and whether a palette was found, its
/// images are stored as `to_container` stores them, then the erase rectangles.
/// Too many rectangles to encode are refused.
pub fn recompose_for_save(
    features: EarsFeatures,
    base: AlfalfaData,
    wing: Option<Vec<u8>>,
    cape: Option<Vec<u8>>,
    palette_found: bool,
    regions: &Vec<AlfalfaEraseEntryData>,
) -> (r: Result<SaveContainer, EarsError>)
    requires
        base.wf(),
    ensures
        r is Ok <==> 4 * regions@.len() <= usize::MAX,
        r is Err ==> r == Err::<SaveContainer, _>(EarsError::EncodeError),
        r matches Ok(s) ==> s.features == repaired(features, wing is Some, cape is Some, palette_found)
            && s.container.wf() && s.container.spec_version() == base.spec_version()
            && s.container@ == with_erase_regions(container_for(s.features, base@, opt_bytes(wing), opt_bytes(cape)), regions@)
            && (s.strip_alpha <==> s.container@ == Map::<Seq<char>, Seq<u8>>::empty()),
{
    if regions.len() > usize::MAX / 4 {
        return Err(EarsError::EncodeError);
    }
    let mut features = features;
    repair_features(&mut features, wing.is_some(), cape.is_some(), palette_found);
    let mut container = to_container(&features, base, wing, cape);
    container.set_erase_regions(regions);
    let strip_alpha = container.is_empty();
    Ok(SaveContainer { features, container, strip_alpha })
}


/// Saving settings keeps every entry of their container other than the wing
/// and cape images, and its version: settings reopened on the saved container
/// see the same custom entries.
pub proof fn lemma_saved_custom_keys(s: FeatureSettings, k: Seq<char>)
    requires
        k != crate::container::wing_key(),
        k != crate::container::cape_key(),
    ensures
        saved_container(s).contains_key(k) == map_or_empty(s.alfalfa).contains_key(k),
        map_or_empty(s.alfalfa).contains_key(k) ==> saved_container(s)[k] == map_or_empty(s.alfalfa)[k],
{
    crate::settings::lemma_other_keys_kept(saved_features(s), map_or_empty(s.alfalfa), opt_bytes(s.wings.wings), opt_bytes(s.cape), k);
}

} // verus!
