use vstd::prelude::*;
use crate::error::EarsError;

verus! {

/// Shape of the ears.
#[derive(Clone, Copy, PartialEq, Eq, Structural, Debug)]
pub enum EarMode {
    Disabled,
    Above,
    Sides,
    Behind,
    Around,
    Floppy,
    Out,
    Cross,
    Tall,
    TallCross,
}

/// Where the ears sit on the head.
#[derive(Clone, Copy, PartialEq, Eq, Structural, Debug)]
pub enum EarAnchor {
    Center,
    Front,
    Back,
}

/// Direction of the tail.
#[derive(Clone, Copy, PartialEq, Eq, Structural, Debug)]
pub enum TailMode {
    Disabled,
    Down,
    Back,
    Up,
    Vertical,
}

/// Arrangement of the wings.
#[derive(Clone, Copy, PartialEq, Eq, Structural, Debug)]
pub enum WingMode {
    Disabled,
    SymmetricDual,
    SymmetricSingle,
    AsymmetricL,
    AsymmetricR,
}

impl EarMode {
    /// Position of the variant in declaration order.
    pub open spec fn spec_index(self) -> u8 {
        match self {
            EarMode::Disabled => 0,
            EarMode::Above => 1,
            EarMode::Sides => 2,
            EarMode::Behind => 3,
            EarMode::Around => 4,
            EarMode::Floppy => 5,
            EarMode::Out => 6,
            EarMode::Cross => 7,
            EarMode::Tall => 8,
            EarMode::TallCross => 9,
        }
    }

    pub fn to_u8(self) -> (r: u8)
        ensures
            r == self.spec_index(),
    {
        match self {
            EarMode::Disabled => 0,
            EarMode::Above => 1,
            EarMode::Sides => 2,
            EarMode::Behind => 3,
            EarMode::Around => 4,
            EarMode::Floppy => 5,
            EarMode::Out => 6,
            EarMode::Cross => 7,
            EarMode::Tall => 8,
            EarMode::TallCross => 9,
        }
    }

    /// The variant at position `b`; a byte past the last variant is corrupt data.
    pub fn from_u8(b: u8) -> (r: Result<Self, EarsError>)
        ensures
            b < 10 <==> r is Ok,
            r matches Ok(m) ==> m.spec_index() == b,
            r is Err ==> r == Err::<Self, _>(EarsError::DecodeError),
    {
        match b {
            0 => Ok(EarMode::Disabled),
            1 => Ok(EarMode::Above),
            2 => Ok(EarMode::Sides),
            3 => Ok(EarMode::Behind),
            4 => Ok(EarMode::Around),
            5 => Ok(EarMode::Floppy),
            6 => Ok(EarMode::Out),
            7 => Ok(EarMode::Cross),
            8 => Ok(EarMode::Tall),
            9 => Ok(EarMode::TallCross),
            _ => Err(EarsError::DecodeError),
        }
    }
}

impl EarAnchor {
    /// Position of the variant in declaration order.
    pub open spec fn spec_index(self) -> u8 {
        match self {
            EarAnchor::Center => 0,
            EarAnchor::Front => 1,
            EarAnchor::Back => 2,
        }
    }

    pub fn to_u8(self) -> (r: u8)
        ensures
            r == self.spec_index(),
    {
        match self {
            EarAnchor::Center => 0,
            EarAnchor::Front => 1,
            EarAnchor::Back => 2,
        }
    }

    /// The variant at position `b`; a byte past the last variant is corrupt data.
    pub fn from_u8(b: u8) -> (r: Result<Self, EarsError>)
        ensures
            b < 3 <==> r is Ok,
            r matches Ok(m) ==> m.spec_index() == b,
            r is Err ==> r == Err::<Self, _>(EarsError::DecodeError),
    {
        match b {
            0 => Ok(EarAnchor::Center),
            1 => Ok(EarAnchor::Front),
            2 => Ok(EarAnchor::Back),
            _ => Err(EarsError::DecodeError),
        }
    }
}

impl TailMode {
    /// Position of the variant in declaration order.
    pub open spec fn spec_index(self) -> u8 {
        match self {
            TailMode::Disabled => 0,
            TailMode::Down => 1,
            TailMode::Back => 2,
            TailMode::Up => 3,
            TailMode::Vertical => 4,
        }
    }

    pub fn to_u8(self) -> (r: u8)
        ensures
            r == self.spec_index(),
    {
        match self {
            TailMode::Disabled => 0,
            TailMode::Down => 1,
            TailMode::Back => 2,
            TailMode::Up => 3,
            TailMode::Vertical => 4,
        }
    }

    /// The variant at position `b`; a byte past the last variant is corrupt data.
    pub fn from_u8(b: u8) -> (r: Result<Self, EarsError>)
        ensures
            b < 5 <==> r is Ok,
            r matches Ok(m) ==> m.spec_index() == b,
            r is Err ==> r == Err::<Self, _>(EarsError::DecodeError),
    {
        match b {
            0 => Ok(TailMode::Disabled),
            1 => Ok(TailMode::Down),
            2 => Ok(TailMode::Back),
            3 => Ok(TailMode::Up),
            4 => Ok(TailMode::Vertical),
            _ => Err(EarsError::DecodeError),
        }
    }
}

impl WingMode {
    /// Position of the variant in declaration order.
    pub open spec fn spec_index(self) -> u8 {
        match self {
            WingMode::Disabled => 0,
            WingMode::SymmetricDual => 1,
            WingMode::SymmetricSingle => 2,
            WingMode::AsymmetricL => 3,
            WingMode::AsymmetricR => 4,
        }
    }

    pub fn to_u8(self) -> (r: u8)
        ensures
            r == self.spec_index(),
    {
        match self {
            WingMode::Disabled => 0,
            WingMode::SymmetricDual => 1,
            WingMode::SymmetricSingle => 2,
            WingMode::AsymmetricL => 3,
            WingMode::AsymmetricR => 4,
        }
    }

    /// The variant at position `b`; a byte past the last variant is corrupt data.
    pub fn from_u8(b: u8) -> (r: Result<Self, EarsError>)
        ensures
            b < 5 <==> r is Ok,
            r matches Ok(m) ==> m.spec_index() == b,
            r is Err ==> r == Err::<Self, _>(EarsError::DecodeError),
    {
        match b {
            0 => Ok(WingMode::Disabled),
            1 => Ok(WingMode::SymmetricDual),
            2 => Ok(WingMode::SymmetricSingle),
            3 => Ok(WingMode::AsymmetricL),
            4 => Ok(WingMode::AsymmetricR),
            _ => Err(EarsError::DecodeError),
        }
    }
}

/// The four bend angles of a tail segment chain, each an IEEE-754
/// single-precision bit pattern: the model carries them through unchanged.
#[derive(Clone, Copy, PartialEq, Eq, Structural, Debug)]
pub struct TailBends(pub u32, pub u32, pub u32, pub u32);

/// Tail geometry.
#[derive(Clone, Copy, PartialEq, Eq, Structural, Debug)]
pub struct TailData {
    pub mode: TailMode,
    pub segments: u8,
    pub bends: TailBends,
}

/// Snout geometry, in texture pixels.
#[derive(Clone, Copy, PartialEq, Eq, Structural, Debug)]
pub struct SnoutData {
    pub offset: u8,
    pub width: u8,
    pub height: u8,
    pub depth: u8,
}

/// Wing arrangement and whether the wings flap.
#[derive(Clone, Copy, PartialEq, Eq, Structural, Debug)]
pub struct WingData {
    pub mode: WingMode,
    pub animated: bool,
}

/// The feature model stored in a skin. `chest_size` is an IEEE-754
/// single-precision bit pattern, carried through unchanged.
#[derive(Clone, Copy, PartialEq, Eq, Structural, Debug)]
pub struct EarsFeatures {
    pub ear_mode: EarMode,
    pub ear_anchor: EarAnchor,
    pub tail: Option<TailData>,
    pub snout: Option<SnoutData>,
    pub wing: Option<WingData>,
    pub claws: bool,
    pub horn: bool,
    pub chest_size: u32,
    pub cape_enabled: bool,
    pub emissive: bool,
    pub data_version: u8,
}

impl EarsFeatures {
    /// Optional parts agree with their modes: a tail or wing that is present is
    /// not of the disabled variant.
    pub open spec fn well_formed(self) -> bool {
        &&& (self.tail matches Some(t) ==> t.mode != TailMode::Disabled)
        &&& (self.wing matches Some(w) ==> w.mode != WingMode::Disabled)
    }
}

} // verus!
