use vstd::prelude::*;
use crate::container::{AlfalfaData, cape_key, cape_key_string, erase_regions_of, wing_key, wing_key_string};
use crate::error::EarsError;
use crate::features::EarsFeatures;
use crate::imaging::{decode_png, is_rgba_image, png_decoded};
use crate::pixels::{PixelBuffer, Rgb, apply_emissive_palette, apply_erase_regions, emissive_overlay, erased_pixels};
use crate::region::AlfalfaEraseEntryData;
use crate::settings::{map_or_empty, opt_wf, stored_in_opt};

verus! {

/// The model after the consistency repair: wings without a stored wing image,
/// a cape without a stored cape image, and a glow without a palette found in
/// the skin are switched off. Nothing is ever switched on.
pub open spec fn repaired(f: EarsFeatures, wing_stored: bool, cape_stored: bool, palette_found: bool) -> EarsFeatures {
    EarsFeatures {
        wing: if wing_stored { f.wing } else { None },
        cape_enabled: f.cape_enabled && cape_stored,
        emissive: f.emissive && palette_found,
        ..f
    }
}

/// Applies the consistency repair given which backing data is present.
pub fn repair_features(features: &mut EarsFeatures, wing_stored: bool, cape_stored: bool, palette_found: bool)
    ensures
        *final(features) == repaired(*old(features), wing_stored, cape_stored, palette_found),
{
    if features.wing.is_some() && !wing_stored {
        features.wing = None;
    }
    if features.cape_enabled && !cape_stored {
        features.cape_enabled = false;
    }
    if features.emissive && !palette_found {
        features.emissive = false;
    }
}

/// Switches off every feature whose backing data is missing: wings when the
/// container holds no wing image, the cape when it holds no cape image, the
/// glow when no emissive palette was found in the skin.
pub fn cleanup_invalid_ears_data(features: &mut EarsFeatures, alfalfa: &Option<AlfalfaData>, palette: &Option<Vec<Rgb>>)
    requires
        opt_wf(*alfalfa),
    ensures
        *final(features) == repaired(
            *old(features),
            stored_in_opt(*alfalfa, wing_key()) is Some,
            stored_in_opt(*alfalfa, cape_key()) is Some,
            palette is Some,
        ),
{
    let (wing_stored, cape_stored) = match alfalfa {
        Some(a) => (a.get(&wing_key_string()).is_some(), a.get(&cape_key_string()).is_some()),
        None => (false, false),
    };
    repair_features(features, wing_stored, cape_stored, palette.is_some());
}

/// Repairing twice is repairing once; after a repair no flag claims data that
/// is missing, and a well-formed model stays well formed.
pub proof fn lemma_repair_idempotent(f: EarsFeatures, wing_stored: bool, cape_stored: bool, palette_found: bool)
    ensures
        repaired(repaired(f, wing_stored, cape_stored, palette_found), wing_stored, cape_stored, palette_found)
            == repaired(f, wing_stored, cape_stored, palette_found),
        repaired(f, wing_stored, cape_stored, palette_found).wing is Some ==> wing_stored,
        repaired(f, wing_stored, cape_stored, palette_found).cape_enabled ==> cape_stored,
        repaired(f, wing_stored, cape_stored, palette_found).emissive ==> palette_found,
        f.well_formed() ==> repaired(f, wing_stored, cape_stored, palette_found).well_formed(),
{
}

/// The render layers of one skin. Each `emissive_*` layer is the glowing part
/// of the layer it is named after.
#[derive(Clone, Debug)]
pub struct SceneLayers {
    pub skin: PixelBuffer,
    pub emissive_skin: Option<PixelBuffer>,
    pub wings: Option<PixelBuffer>,
    pub emissive_wings: Option<PixelBuffer>,
    pub cape: Option<PixelBuffer>,
    pub emissive_cape: Option<PixelBuffer>,
}

/// Whether `b` holds a PNG image that decodes to four bytes per pixel.
pub open spec fn decodes_to_rgba(b: Seq<u8>) -> bool {
    png_decoded(b) matches Some(t) && is_rgba_image(t)
}

/// `p` is the image that the PNG file `b` holds.
pub open spec fn decoded_from(p: PixelBuffer, b: Seq<u8>) -> bool {
    p.wf() && png_decoded(b) == Some((p.spec_width(), p.spec_height(), p@))
}

/// `o` is the emissive overlay of `base`: present exactly when a non-empty palette was found.
pub open spec fn overlay_layer(o: Option<PixelBuffer>, base: PixelBuffer, palette: Option<Vec<Rgb>>) -> bool {
    if palette matches Some(p) && p@.len() > 0 {
        o matches Some(l) && l.wf() && l.spec_width() == base.spec_width() && l.spec_height() == base.spec_height()
            && l@ == emissive_overlay(base@, palette->0@)
    } else {
        o is None
    }
}

/// An auxiliary layer stored under a key: present exactly when its image is, decoded from it.
pub open spec fn aux_layer(l: Option<PixelBuffer>, stored: Option<Seq<u8>>) -> bool {
    match stored {
        Some(b) => l matches Some(p) && decoded_from(p, b),
        None => l is None,
    }
}

/// The erase rectangles of an optional container, none when there are none.
pub open spec fn erase_list(a: Option<AlfalfaData>) -> Seq<AlfalfaEraseEntryData> {
    match erase_regions_of(map_or_empty(a)) {
        Ok(Some(rs)) => rs,
        _ => Seq::empty(),
    }
}

/// Whether every stored blob that decomposition reads is readable.
pub open spec fn decomposable(a: Option<AlfalfaData>) -> bool {
    &&& (stored_in_opt(a, wing_key()) matches Some(b) ==> decodes_to_rgba(b))
    &&& (stored_in_opt(a, cape_key()) matches Some(b) ==> decodes_to_rgba(b))
    &&& erase_regions_of(map_or_empty(a)) is Ok
}

/// `l` is the decomposition of `skin` with its container and palette.
pub open spec fn layers_of(l: SceneLayers, skin: PixelBuffer, a: Option<AlfalfaData>, palette: Option<Vec<Rgb>>) -> bool {
    &&& aux_layer(l.wings, stored_in_opt(a, wing_key()))
    &&& (l.wings matches Some(w) ==> overlay_layer(l.emissive_wings, w, palette))
    &&& (l.wings is None ==> l.emissive_wings is None)
    &&& aux_layer(l.cape, stored_in_opt(a, cape_key()))
    &&& (l.cape matches Some(c) ==> overlay_layer(l.emissive_cape, c, palette))
    &&& (l.cape is None ==> l.emissive_cape is None)
    &&& l.skin.wf()
    &&& l.skin.spec_width() == skin.spec_width()
    &&& l.skin.spec_height() == skin.spec_height()
    &&& l.skin@ == erased_pixels(skin@, skin.spec_width() as int, erase_list(a))
    &&& overlay_layer(l.emissive_skin, l.skin, palette)
}

fn emissive_layer(base: &PixelBuffer, palette: &Option<Vec<Rgb>>) -> (r: Option<PixelBuffer>)
    requires
        base.wf(),
    ensures
        overlay_layer(r, *base, *palette),
{
    match palette {
        Some(p) => match apply_emissive_palette(base, p) {
            Ok(o) => Some(o),
            Err(_) => None,
        },
        None => None,
    }
}

fn aux_layers(alfalfa: &Option<AlfalfaData>, key: &String, palette: &Option<Vec<Rgb>>) -> (r: Result<
    (Option<PixelBuffer>, Option<PixelBuffer>),
    EarsError,
>)
    requires
        opt_wf(*alfalfa),
    ensures
        r is Ok <==> (stored_in_opt(*alfalfa, key@) matches Some(b) ==> decodes_to_rgba(b)),
        r is Err ==> r == Err::<(Option<PixelBuffer>, Option<PixelBuffer>), _>(EarsError::DecodeError),
        r matches Ok(t) ==> aux_layer(t.0, stored_in_opt(*alfalfa, key@)),
        r matches Ok(t) ==> (t.0 matches Some(p) ==> overlay_layer(t.1, p, *palette)),
        r matches Ok(t) ==> (t.0 is None ==> t.1 is None),
{
    let bytes = match alfalfa {
        Some(a) => a.get(key),
        None => None,
    };
    match bytes {
        Some(b) => {
            let layer = decode_png(b.as_slice())?;
            let glow = emissive_layer(&layer, palette);
            Ok((Some(layer), glow))
        },
        None => Ok((None, None)),
    }
}

/// Splits a skin into its render layers: the wing and cape images stored in
/// the container are decoded, each emissive overlay is taken with the palette
/// found in the skin, and the erase rectangles are applied to the skin alone.
/// Stored data that cannot be read is reported, never replaced.
pub fn decompose_for_render(skin: PixelBuffer, alfalfa: &Option<AlfalfaData>, palette: &Option<Vec<Rgb>>) -> (r: Result<SceneLayers, EarsError>)
    requires
        skin.wf(),
        opt_wf(*alfalfa),
    ensures
        r is Ok <==> decomposable(*alfalfa),
        r is Err ==> r == Err::<SceneLayers, _>(EarsError::DecodeError),
        r matches Ok(l) ==> layers_of(l, skin, *alfalfa, *palette),
{
    let (wings, emissive_wings) = aux_layers(alfalfa, &wing_key_string(), palette)?;
    let (cape, emissive_cape) = aux_layers(alfalfa, &cape_key_string(), palette)?;
    let regions = match alfalfa {
        Some(a) => match a.get_erase_regions()? {
            Some(rs) => rs,
            None => Vec::new(),
        },
        None => Vec::new(),
    };
    assert(regions@ == erase_list(*alfalfa));
    let erased = apply_erase_regions(&skin, &regions);
    let emissive_skin = emissive_layer(&erased, palette);
    Ok(SceneLayers { skin: erased, emissive_skin, wings, emissive_wings, cape, emissive_cape })
}


/// Body proportions of the rendered character.
#[derive(Clone, Copy, PartialEq, Eq, Structural, Debug)]
pub enum WasmPlayerModel {
    /// Classic arms, four pixels wide.
    Steve,
    /// Slim arms, three pixels wide.
    Alex,
}

/// What the viewer asks to be drawn.
#[derive(Clone, Copy, PartialEq, Eq, Structural, Debug)]
pub struct SceneCharacterSettings {
    pub is_slim: bool,
    pub has_hat_layer: bool,
    pub has_ears: bool,
    pub has_layers: bool,
    pub has_cape: bool,
}

impl SceneCharacterSettings {
    /// Everything switched off: a classic character without layers, ears or cape.
    pub fn new() -> (r: Self)
        ensures
            !r.is_slim && !r.has_hat_layer && !r.has_ears && !r.has_layers && !r.has_cape,
    {
        SceneCharacterSettings { is_slim: false, has_hat_layer: false, has_layers: false, has_ears: false, has_cape: false }
    }
}

/// What the part provider needs to build the character's geometry.
#[derive(Clone, Copy, PartialEq, Eq, Structural, Debug)]
pub struct PartContext {
    pub model: WasmPlayerModel,
    pub has_hat_layer: bool,
    pub has_layers: bool,
    pub has_cape: bool,
    pub ears_features: Option<EarsFeatures>,
}

/// A character ready to be drawn: its geometry switches and its texture layers.
#[derive(Clone, Debug)]
pub struct SceneSetup {
    pub context: PartContext,
    pub layers: SceneLayers,
}

/// The features drawn for a character: none unless ears are asked for, and
/// repaired against the container and the palette otherwise.
pub open spec fn scene_features(
    model: SceneCharacterSettings,
    features: Option<EarsFeatures>,
    alfalfa: Option<AlfalfaData>,
    palette: Option<Vec<Rgb>>,
) -> Option<EarsFeatures> {
    if model.has_ears && features is Some {
        Some(
            repaired(
                features->0,
                stored_in_opt(alfalfa, wing_key()) is Some,
                stored_in_opt(alfalfa, cape_key()) is Some,
                palette is Some,
            ),
        )
    } else {
        None
    }
}

/// The geometry switches for a character drawn with the given features.
pub open spec fn scene_context(model: SceneCharacterSettings, features: Option<EarsFeatures>) -> PartContext {
    PartContext {
        model: if model.is_slim { WasmPlayerModel::Alex } else { WasmPlayerModel::Steve },
        has_hat_layer: model.has_hat_layer,
        has_layers: model.has_layers,
        has_cape: model.has_cape && (features matches Some(f) && f.cape_enabled),
        ears_features: features,
    }
}

/// Prepares a skin for drawing. The features parsed from the skin are used
/// only when ears are asked for; they are repaired first, and the cape is drawn
/// only when it is both asked for and backed by a stored image. Layers are
/// decomposed only when ears are asked for; otherwise the skin is drawn as it is.
pub fn prepare_scene(
    model: &SceneCharacterSettings,
    skin: PixelBuffer,
    features: Option<EarsFeatures>,
    alfalfa: &Option<AlfalfaData>,
    palette: &Option<Vec<Rgb>>,
) -> (r: Result<SceneSetup, EarsError>)
    requires
        skin.wf(),
        opt_wf(*alfalfa),
    ensures
        r is Ok <==> (model.has_ears ==> decomposable(*alfalfa)),
        r is Err ==> r == Err::<SceneSetup, _>(EarsError::DecodeError),
        r matches Ok(s) ==> s.context == scene_context(*model, scene_features(*model, features, *alfalfa, *palette)),
        r matches Ok(s) ==> model.has_ears ==> layers_of(s.layers, skin, *alfalfa, *palette),
        r matches Ok(s) ==> !model.has_ears ==> s.layers.skin == skin && s.layers.emissive_skin is None
            && s.layers.wings is None && s.layers.emissive_wings is None && s.layers.cape is None
            && s.layers.emissive_cape is None,
{
    let mut ears_features = if model.has_ears { features } else { None };
    if let Some(f) = &mut ears_features {
        cleanup_invalid_ears_data(f, alfalfa, palette);
    }
    let has_cape = match ears_features {
        Some(f) => f.cape_enabled && model.has_cape,
        None => false,
    };
    let context = PartContext {
        model: if model.is_slim { WasmPlayerModel::Alex } else { WasmPlayerModel::Steve },
        has_hat_layer: model.has_hat_layer,
        has_layers: model.has_layers,
        has_cape,
        ears_features,
    };
    let layers = if model.has_ears {
        decompose_for_render(skin, alfalfa, palette)?
    } else {
        SceneLayers { skin, emissive_skin: None, wings: None, emissive_wings: None, cape: None, emissive_cape: None }
    };
    Ok(SceneSetup { context, layers })
}

/// The software rasterizer draws without a device context, so a context is
/// always available to it.
pub fn graphics_context() -> (r: Option<&'static ()>)
    ensures
        r == Some(&()),
{
    Some(&())
}

} // verus!
