//! Descriptive records of a cargo (a group of containers) and its configuration.
use vstd::prelude::*;

verus! {

/// The configuration a cargo runs with.
pub struct CargoConfig {
    /// Identifier of this configuration, as the 128 bits of a UUID.
    pub key: u128,
    pub name: String,
    pub version: String,
    /// Key of the cargo the configuration belongs to.
    pub cargo_key: String,
}

/// A cargo with its current configuration.
pub struct Cargo {
    pub key: String,
    pub namespace_name: String,
    pub name: String,
    /// Identifier of the current configuration, as the 128 bits of a UUID.
    pub config_key: u128,
    pub config: CargoConfig,
}

/// A cargo with its current configuration and how many of its instances run.
pub struct CargoSummary {
    pub key: String,
    pub name: String,
    /// Identifier of the current configuration, as the 128 bits of a UUID.
    pub config_key: u128,
    pub namespace_name: String,
    pub config: CargoConfig,
    pub running_instances: i64,
}

} // verus!
