//! Dimension definitions: schema acceptance, the keyed upsert with its
//! audit-field policy, and the per-tenant mandatory flag.

pub mod schema;
pub mod model;
pub mod tagging;
pub mod registry;
pub mod catalog;
pub mod laws;
