//! A client-side engine for software licensing, verified with Verus.
//!
//! It models the records of a licensing authority (licenses, machines,
//! components, entitlements), reads back the signed and encrypted offline
//! files that the authority issues, and maps every failure to one closed
//! taxonomy. The remote authority itself, its transport and cryptography
//! are reached through `keygen_rs`.

pub mod foreign;
pub mod text;
pub mod json;
pub mod errors;
pub mod date;
pub mod license;
pub mod machine;
pub mod component;
pub mod entitlement;
pub mod certificate;
pub mod config;
pub mod license_file;
pub mod machine_file;
