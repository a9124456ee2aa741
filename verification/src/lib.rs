//! Naming and packaging rules for building an Apache Celix bundle out of a
//! Cargo package: the names of the built library and the bundle archive, the
//! bundle manifest, the framework configuration, and the lookup of package
//! settings in `Cargo.toml`.

pub mod text;
pub mod cargo_toml;
pub mod bundle;
pub mod locate;
pub mod laws;
pub mod celix;
