use vstd::prelude::*;
use crate::container::{
    AlfalfaData, cape_key, cape_key_string, copy_bytes, wing_key, wing_key_string,
};
use crate::features::{
    EarAnchor, EarMode, EarsFeatures, SnoutData, TailBends, TailData, TailMode, WingData, WingMode,
};
use crate::pixels::{Rgb, hex_of, hex_to_rgb, rgb_of, rgb_to_hex};

verus! {

/// Whether a part is drawn from the sample skin or from the user's own skin.
#[derive(Clone, Copy, PartialEq, Eq, Structural, Debug)]
pub enum TextureSource {
    SampleSkin,
    YourSkin,
}

/// A small protrusion that can be switched on independently.
#[derive(Clone, Copy, PartialEq, Eq, Structural, Debug)]
pub enum Protrusion {
    Claws,
    Horns,
}

/// Whether the wings flap.
#[derive(Clone, Copy, PartialEq, Eq, Structural, Debug)]
pub enum WingsAnimations {
    Normal,
    Disabled,
}

#[derive(Clone, Copy, PartialEq, Eq, Structural, Debug)]
pub struct EarsSettings {
    pub mode: EarMode,
    pub anchor: EarAnchor,
    pub source: TextureSource,
}

/// Tail settings; a disabled tail keeps zeroed numbers.
#[derive(Clone, Copy, PartialEq, Eq, Structural, Debug)]
pub struct TailSettings {
    pub mode: TailMode,
    pub segments: u8,
    pub bends: TailBends,
}

#[derive(Clone, Copy, PartialEq, Eq, Structural, Debug)]
pub struct SnoutSettings {
    pub width: u8,
    pub height: u8,
    pub length: u8,
    pub offset: u8,
    pub source: TextureSource,
}

/// Wing settings, with the wing image bytes when the skin holds them.
#[derive(Clone, Debug)]
pub struct WingSettings {
    pub mode: WingMode,
    pub animations: WingsAnimations,
    pub wings: Option<Vec<u8>>,
    pub source: TextureSource,
}

/// Whether the skin glows, and its palette as packed `0xFFRRGGBB` words.
#[derive(Clone, Debug)]
pub struct EmissiveSettings {
    pub enabled: bool,
    pub palette: Vec<u32>,
}

/// The flat, editable form of the feature model: every part is present, with
/// a disabled mode where the model has none, plus the auxiliary images and the
/// container they came from.
#[derive(Clone, Debug)]
pub struct FeatureSettings {
    pub ears: EarsSettings,
    pub protrusions: Vec<Protrusion>,
    pub protrusions_source: TextureSource,
    pub tail: TailSettings,
    pub snout: Option<SnoutSettings>,
    pub wings: WingSettings,
    pub cape_enabled: bool,
    pub cape: Option<Vec<u8>>,
    pub chest_size: u32,
    pub alfalfa: Option<AlfalfaData>,
    pub emissives: EmissiveSettings,
    pub data_version: u8,
}

/// The protrusion list that stands for the two flags.
pub open spec fn protrusions_of(claws: bool, horn: bool) -> Seq<Protrusion> {
    if claws && horn {
        seq![Protrusion::Claws, Protrusion::Horns]
    } else if claws {
        seq![Protrusion::Claws]
    } else if horn {
        seq![Protrusion::Horns]
    } else {
        seq![]
    }
}

/// The feature model that settings describe. A disabled tail or wing mode
/// leaves that part out; its other numbers are dropped.
pub open spec fn features_of(s: FeatureSettings) -> EarsFeatures {
    EarsFeatures {
        ear_mode: s.ears.mode,
        ear_anchor: s.ears.anchor,
        tail: if s.tail.mode != TailMode::Disabled {
            Some(TailData { mode: s.tail.mode, segments: s.tail.segments, bends: s.tail.bends })
        } else {
            None
        },
        snout: match s.snout {
            Some(n) => Some(SnoutData { offset: n.offset, width: n.width, height: n.height, depth: n.length }),
            None => None,
        },
        wing: if s.wings.mode != WingMode::Disabled {
            Some(WingData { mode: s.wings.mode, animated: s.wings.animations == WingsAnimations::Normal })
        } else {
            None
        },
        claws: s.protrusions@.contains(Protrusion::Claws),
        horn: s.protrusions@.contains(Protrusion::Horns),
        chest_size: s.chest_size,
        cape_enabled: s.cape_enabled,
        emissive: s.emissives.enabled,
        data_version: s.data_version,
    }
}

/// `s` is the settings form of the model `f`: absent parts get their disabled
/// mode and zeroed numbers, and no image, container or palette is attached.
pub open spec fn settings_of(s: FeatureSettings, f: EarsFeatures) -> bool {
    &&& s.ears == EarsSettings { mode: f.ear_mode, anchor: f.ear_anchor, source: TextureSource::SampleSkin }
    &&& s.protrusions@ == protrusions_of(f.claws, f.horn)
    &&& s.protrusions_source == TextureSource::SampleSkin
    &&& s.tail == match f.tail {
        Some(t) => TailSettings { mode: t.mode, segments: t.segments, bends: t.bends },
        None => TailSettings { mode: TailMode::Disabled, segments: 0, bends: TailBends(0, 0, 0, 0) },
    }
    &&& s.snout == match f.snout {
        Some(n) => Some(SnoutSettings { width: n.width, height: n.height, length: n.depth, offset: n.offset, source: TextureSource::SampleSkin }),
        None => None::<SnoutSettings>,
    }
    &&& s.wings.mode == match f.wing {
        Some(w) => w.mode,
        None => WingMode::Disabled,
    }
    &&& s.wings.animations == match f.wing {
        Some(w) => if w.animated { WingsAnimations::Normal } else { WingsAnimations::Disabled },
        None => WingsAnimations::Disabled,
    }
    &&& s.wings.wings is None
    &&& s.wings.source == TextureSource::SampleSkin
    &&& s.cape_enabled == f.cape_enabled
    &&& s.cape is None
    &&& s.chest_size == f.chest_size
    &&& s.alfalfa is None
    &&& s.emissives.enabled == f.emissive
    &&& s.emissives.palette@.len() == 0
    &&& s.data_version == f.data_version
}

/// The bytes an optional blob holds.
pub open spec fn opt_bytes(o: Option<Vec<u8>>) -> Option<Seq<u8>> {
    match o {
        Some(v) => Some(v@),
        None => None,
    }
}

/// The blob stored under `k` in `m`, if any.
pub open spec fn stored_in(m: Map<Seq<char>, Seq<u8>>, k: Seq<char>) -> Option<Seq<u8>> {
    if m.contains_key(k) {
        Some(m[k])
    } else {
        None
    }
}

/// The blob stored under `k` in an optional container, if any.
pub open spec fn stored_in_opt(a: Option<AlfalfaData>, k: Seq<char>) -> Option<Seq<u8>> {
    match a {
        Some(c) => stored_in(c@, k),
        None => None,
    }
}

fn contains_protrusion(v: &Vec<Protrusion>, p: Protrusion) -> (r: bool)
    ensures
        r == v@.contains(p),
{
    let mut i: usize = 0;
    while i < v.len()
        invariant
            i <= v@.len(),
            forall|j: int| 0 <= j < i ==> v@[j] != p,
        decreases v@.len() - i,
    {
        if v[i] == p {
            return true;
        }
        i = i + 1;
    }
    false
}

impl FeatureSettings {
    /// The feature model these settings describe.
    pub fn to_features(&self) -> (r: EarsFeatures)
        ensures
            r == features_of(*self),
    {
        let tail = if self.tail.mode != TailMode::Disabled {
            Some(TailData { mode: self.tail.mode, segments: self.tail.segments, bends: self.tail.bends })
        } else {
            None
        };
        let snout = match self.snout {
            Some(n) => Some(SnoutData { offset: n.offset, width: n.width, height: n.height, depth: n.length }),
            None => None,
        };
        let wing = if self.wings.mode != WingMode::Disabled {
            Some(WingData { mode: self.wings.mode, animated: self.wings.animations == WingsAnimations::Normal })
        } else {
            None
        };
        EarsFeatures {
            ear_mode: self.ears.mode,
            ear_anchor: self.ears.anchor,
            tail,
            snout,
            wing,
            claws: contains_protrusion(&self.protrusions, Protrusion::Claws),
            horn: contains_protrusion(&self.protrusions, Protrusion::Horns),
            chest_size: self.chest_size,
            cape_enabled: self.cape_enabled,
            emissive: self.emissives.enabled,
            data_version: self.data_version,
        }
    }

    /// The settings form of a feature model.
    pub fn from_features(f: EarsFeatures) -> (r: Self)
        ensures
            settings_of(r, f),
    {
        let mut protrusions: Vec<Protrusion> = Vec::new();
        if f.claws {
            protrusions.push(Protrusion::Claws);
        }
        if f.horn {
            protrusions.push(Protrusion::Horns);
        }
        let tail = match f.tail {
            Some(t) => TailSettings { mode: t.mode, segments: t.segments, bends: t.bends },
            None => TailSettings { mode: TailMode::Disabled, segments: 0, bends: TailBends(0, 0, 0, 0) },
        };
        let snout = match f.snout {
            Some(n) => Some(SnoutSettings { width: n.width, height: n.height, length: n.depth, offset: n.offset, source: TextureSource::SampleSkin }),
            None => None,
        };
        let wings = match f.wing {
            Some(w) => WingSettings {
                mode: w.mode,
                animations: if w.animated { WingsAnimations::Normal } else { WingsAnimations::Disabled },
                wings: None,
                source: TextureSource::SampleSkin,
            },
            None => WingSettings {
                mode: WingMode::Disabled,
                animations: WingsAnimations::Disabled,
                wings: None,
                source: TextureSource::SampleSkin,
            },
        };
        let r = FeatureSettings {
            ears: EarsSettings { mode: f.ear_mode, anchor: f.ear_anchor, source: TextureSource::SampleSkin },
            protrusions,
            protrusions_source: TextureSource::SampleSkin,
            tail,
            snout,
            wings,
            cape_enabled: f.cape_enabled,
            cape: None,
            chest_size: f.chest_size,
            alfalfa: None,
            emissives: EmissiveSettings { enabled: f.emissive, palette: Vec::new() },
            data_version: f.data_version,
        };
        assert(r.protrusions@ =~= protrusions_of(f.claws, f.horn));
        r
    }
}

/// Turning a well-formed feature model into settings and back gives the same model.
pub proof fn lemma_mapper_round_trip(f: EarsFeatures, s: FeatureSettings)
    requires
        f.well_formed(),
        settings_of(s, f),
    ensures
        features_of(s) == f,
{
    let p = s.protrusions@;
    if f.claws {
        assert(p[0] == Protrusion::Claws);
    }
    if f.horn {
        assert(p[p.len() - 1] == Protrusion::Horns);
    }
    if !f.claws {
        assert(!p.contains(Protrusion::Claws)) by {
            if p.contains(Protrusion::Claws) {
                let i = choose|i: int| 0 <= i < p.len() && p[i] == Protrusion::Claws;
            }
        }
    }
    if !f.horn {
        assert(!p.contains(Protrusion::Horns)) by {
            if p.contains(Protrusion::Horns) {
                let i = choose|i: int| 0 <= i < p.len() && p[i] == Protrusion::Horns;
            }
        }
    }
}


/// Whether a model has wings: a wing part whose mode is not disabled.
pub open spec fn has_wings(f: EarsFeatures) -> bool {
    f.wing matches Some(w) && w.mode != WingMode::Disabled
}

/// The container that `to_container` builds from a model, a base container
/// and the two auxiliary images: every entry of the base but the wing and cape
/// images is kept as it is; the wing image is stored when the model has wings
/// and the bytes are given, the cape image when the cape is enabled and the
/// bytes are given.
pub open spec fn container_for(
    f: EarsFeatures,
    base: Map<Seq<char>, Seq<u8>>,
    wing: Option<Seq<u8>>,
    cape: Option<Seq<u8>>,
) -> Map<Seq<char>, Seq<u8>> {
    let kept = base.remove(wing_key()).remove(cape_key());
    let with_wing = if has_wings(f) && wing is Some {
        kept.insert(wing_key(), wing->0)
    } else {
        kept
    };
    if f.cape_enabled && cape is Some {
        with_wing.insert(cape_key(), cape->0)
    } else {
        with_wing
    }
}

/// Builds the container that persists a model: see `container_for`.
pub fn to_container(f: &EarsFeatures, base: AlfalfaData, wing: Option<Vec<u8>>, cape: Option<Vec<u8>>) -> (r: AlfalfaData)
    requires
        base.wf(),
    ensures
        r.wf(),
        r@ == container_for(*f, base@, opt_bytes(wing), opt_bytes(cape)),
        r.spec_version() == base.spec_version(),
{
    let mut c = base;
    c.remove(&wing_key_string());
    c.remove(&cape_key_string());
    let winged = match f.wing {
        Some(w) => w.mode != WingMode::Disabled,
        None => false,
    };
    if winged {
        if let Some(w) = wing {
            c.set(wing_key_string(), w);
        }
    }
    if f.cape_enabled {
        if let Some(k) = cape {
            c.set(cape_key_string(), k);
        }
    }
    c
}

/// The wing and cape image bytes a container holds.
pub fn from_container(c: &AlfalfaData) -> (r: (Option<Vec<u8>>, Option<Vec<u8>>))
    requires
        c.wf(),
    ensures
        opt_bytes(r.0) == stored_in(c@, wing_key()),
        opt_bytes(r.1) == stored_in(c@, cape_key()),
{
    let wing = match c.get(&wing_key_string()) {
        Some(w) => Some(copy_bytes(w)),
        None => None,
    };
    let cape = match c.get(&cape_key_string()) {
        Some(k) => Some(copy_bytes(k)),
        None => None,
    };
    (wing, cape)
}

/// Entries other than the wing and cape images pass through `to_container` unchanged.
pub proof fn lemma_other_keys_kept(
    f: EarsFeatures,
    base: Map<Seq<char>, Seq<u8>>,
    wing: Option<Seq<u8>>,
    cape: Option<Seq<u8>>,
    k: Seq<char>,
)
    requires
        k != wing_key(),
        k != cape_key(),
    ensures
        container_for(f, base, wing, cape).contains_key(k) == base.contains_key(k),
        base.contains_key(k) ==> container_for(f, base, wing, cape)[k] == base[k],
{
}

/// The map of an optional container, empty when there is none.
pub open spec fn map_or_empty(a: Option<AlfalfaData>) -> Map<Seq<char>, Seq<u8>> {
    match a {
        Some(c) => c@,
        None => Map::empty(),
    }
}

/// Whether an optional container is well formed.
pub open spec fn opt_wf(a: Option<AlfalfaData>) -> bool {
    a matches Some(c) ==> c.wf()
}

impl FeatureSettings {
    /// Attaches a container: the wing and cape images are taken from it, and
    /// the wings count as the user's own exactly when their image is there.
    pub fn with_alfalfa(self, alfalfa: Option<AlfalfaData>) -> (r: Self)
        requires
            opt_wf(alfalfa),
        ensures
            opt_bytes(r.wings.wings) == stored_in_opt(alfalfa, wing_key()),
            r.wings.source == if r.wings.wings is Some { TextureSource::YourSkin } else { TextureSource::SampleSkin },
            r.wings.mode == self.wings.mode,
            r.wings.animations == self.wings.animations,
            opt_bytes(r.cape) == stored_in_opt(alfalfa, cape_key()),
            r.alfalfa == alfalfa,
            r.ears == self.ears,
            r.protrusions == self.protrusions,
            r.protrusions_source == self.protrusions_source,
            r.tail == self.tail,
            r.snout == self.snout,
            r.cape_enabled == self.cape_enabled,
            r.chest_size == self.chest_size,
            r.emissives == self.emissives,
            r.data_version == self.data_version,
    {
        let (wings, cape) = match &alfalfa {
            Some(a) => from_container(a),
            None => (None, None),
        };
        let source = if wings.is_some() { TextureSource::YourSkin } else { TextureSource::SampleSkin };
        FeatureSettings {
            wings: WingSettings { mode: self.wings.mode, animations: self.wings.animations, wings, source },
            cape,
            alfalfa,
            ..self
        }
    }

    /// Attaches the palette found in the skin, replacing any earlier one.
    pub fn with_emissive(self, palette: Option<Vec<Rgb>>) -> (r: Self)
        ensures
            r.emissives.palette@ == match palette {
                Some(p) => p@.map_values(|c: Rgb| hex_of(c)),
                None => Seq::<u32>::empty(),
            },
            r.emissives.enabled == self.emissives.enabled,
            r.ears == self.ears,
            r.protrusions == self.protrusions,
            r.protrusions_source == self.protrusions_source,
            r.tail == self.tail,
            r.snout == self.snout,
            r.wings == self.wings,
            r.cape_enabled == self.cape_enabled,
            r.cape == self.cape,
            r.chest_size == self.chest_size,
            r.alfalfa == self.alfalfa,
            r.data_version == self.data_version,
    {
        let mut hex: Vec<u32> = Vec::new();
        match &palette {
            Some(p) => {
                let mut i: usize = 0;
                while i < p.len()
                    invariant
                        i <= p@.len(),
                        hex@ == p@.subrange(0, i as int).map_values(|c: Rgb| hex_of(c)),
                    decreases p@.len() - i,
                {
                    hex.push(rgb_to_hex(p[i]));
                    i = i + 1;
                    assert(hex@ =~= p@.subrange(0, i as int).map_values(|c: Rgb| hex_of(c)));
                }
                assert(p@.subrange(0, p@.len() as int) =~= p@);
            },
            None => {
                assert(hex@ =~= Seq::<u32>::empty());
            },
        }
        FeatureSettings { emissives: EmissiveSettings { enabled: self.emissives.enabled, palette: hex }, ..self }
    }

    /// The palette the settings hold, as colors.
    pub fn emissive_palette(&self) -> (r: Vec<Rgb>)
        ensures
            r@ == self.emissives.palette@.map_values(|h: u32| rgb_of(h)),
    {
        let p = &self.emissives.palette;
        let mut out: Vec<Rgb> = Vec::new();
        let mut i: usize = 0;
        while i < p.len()
            invariant
                i <= p@.len(),
                out@ == p@.subrange(0, i as int).map_values(|h: u32| rgb_of(h)),
            decreases p@.len() - i,
        {
            out.push(hex_to_rgb(p[i]));
            i = i + 1;
            assert(out@ =~= p@.subrange(0, i as int).map_values(|h: u32| rgb_of(h)));
        }
        assert(p@.subrange(0, p@.len() as int) =~= p@);
        out
    }

    /// The container that persists these settings: the attached container (or
    /// an empty one) with the wing and cape images set as `to_container` does.
    pub fn to_alfalfa(self) -> (r: AlfalfaData)
        requires
            opt_wf(self.alfalfa),
        ensures
            r.wf(),
            r@ == container_for(features_of(self), map_or_empty(self.alfalfa), opt_bytes(self.wings.wings), opt_bytes(self.cape)),
            r.spec_version() == match self.alfalfa {
                Some(a) => a.spec_version(),
                None => 0u8,
            },
    {
        let f = self.to_features();
        let base = match self.alfalfa {
            Some(a) => a,
            None => AlfalfaData::new(),
        };
        to_container(&f, base, self.wings.wings, self.cape)
    }
}

} // verus!
