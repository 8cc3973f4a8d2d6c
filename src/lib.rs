//! Avatar feature data carried inside a skin image: the versioned key/value
//! container, the erase-region codec, the mapping between the feature model and
//! its editable settings, the emissive palette overlay, and the decomposition of
//! a skin into render layers.

pub mod region;
pub mod error;
pub mod container;
pub mod features;
pub mod pixels;
pub mod imaging;
pub mod settings;
pub mod render;
pub mod workspace;
pub mod inspector;
pub mod save;
