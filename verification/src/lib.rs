//! Relation-field detection and model-field planning for SeaORM 2.0 entities.
//!
//! The library reads a plain description of an entity struct's fields
//! (`model`), detects SeaORM 2.0 relation fields (`relations`), and decides
//! which fields the generated Create, Update and Response models hold and how
//! they are converted (`codegen`). String handling that the decisions rest on
//! lives in `text`. Properties across functions are proved in `laws`
//! (relations between functions), `field_laws` (what each plan is in terms of
//! a field's own parts) and `list_laws` (list plans as filtered, mapped field
//! lists).

pub mod text;
pub mod model;
pub mod relations;
pub mod codegen;
pub mod laws;
pub mod field_laws;
pub mod list_laws;
