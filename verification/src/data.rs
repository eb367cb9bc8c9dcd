//! The services of an activated pack.

pub mod bundle;
pub mod esi;
pub mod image;
pub mod links;
pub mod localization;
pub mod statics;
