//! Migration of an ESLint configuration into Biome's configuration model.
//!
//! The library consumes an ESLint configuration that has already been parsed
//! into a generic value tree ([`value::Value`]), decodes it into a typed
//! configuration model while collecting non-fatal diagnostics, resolves
//! `extends` chains against built-in preset tables, merges override blocks,
//! and finally maps every configured rule onto Biome's rule set, producing a
//! typed Biome configuration and a migration report.

pub mod barrel;
pub mod biome;
pub mod config;
pub mod decode;
pub mod diagnostics;
pub mod imports;
pub mod jsxa11y;
pub mod migrate;
pub mod name_map;
pub mod presets;
pub mod react;
pub mod react_hooks;
pub mod rule_conf;
pub mod rules;
pub mod severity;
pub mod typescript;
pub mod unicorn;
pub mod value;
