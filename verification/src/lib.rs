//! Data-pack management and localized search for the EVE multitools client.
//!
//! A pack is a directory of static game data with a manifest. The crate
//! holds the rules by which packs are handled:
//!
//! - [`bundle`]: the catalog of packs, of which at most one is active, and
//!   the import pipeline that brings an archive into the catalog;
//! - [`data`]: the services of the active pack, first of all the localized
//!   strings with the search over them;
//! - [`config`]: the settings of the client;
//! - [`utils`]: text, paths, request templates and tables by identifier.
//!
//! Everything here is plain computation, and verified. Reading archives,
//! files and databases, and talking to the network, is left to the
//! application around the crate, which hands the results in as values.

pub mod bundle;
pub mod config;
pub mod data;
pub mod utils;
