//! Helpers shared by the catalog and the data services.

pub mod distance;
pub mod int_map;
pub mod path;
pub mod request;
pub mod text;
