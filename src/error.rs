use vstd::prelude::*;

verus! {

/// What can go wrong while reading or writing skin feature data.
#[derive(Clone, Copy, PartialEq, Eq, Structural, Debug)]
pub enum EarsError {
    /// Malformed container blob, out-of-range enumeration byte, or corrupt image.
    DecodeError,
    /// A value that cannot be represented, or an empty emissive palette to apply.
    EncodeError,
    /// A value outside its representable range handed in by a caller.
    InvalidArgument,
    /// A feature flag that disagrees with the data backing it.
    InconsistentState,
}

} // verus!
