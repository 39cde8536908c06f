//! Model-field planning: which fields the generated Create, Update and
//! Response models hold, with which types, and how they are converted. Each
//! function returns a plan per field (a value of a `...<String>` plan type),
//! which the code generator turns into tokens.
use vstd::prelude::*;

use crate::model::{flag_value, FieldModel};
use crate::relations::{is_relation_field, relation_of_field, RelationFieldType};
use crate::text::str_eq;

pub mod create;
pub mod response;
pub mod update;

verus! {

/// The setting reported for `key`, or `default` when there is none.
pub open spec fn flag_or(f: FieldModel, key: Seq<char>, default: bool) -> bool {
    match flag_value(f.crudcrate_flags@, key) {
        Some(b) => b,
        None => default,
    }
}

/// Whether a field belongs in the model `model_type` (`create_model`,
/// `update_model`, `list_model`, ...): relation fields never do in the
/// Create, Update and List models (they are added separately); join fields
/// never do in the Create and Update models, and in the List model only when
/// loaded for lists; otherwise the field's own setting for the model decides,
/// and a field without one is included.
pub open spec fn included_in_model(f: FieldModel, model_type: Seq<char>) -> bool {
    let create_or_update = model_type == "create_model"@ || model_type == "update_model"@;
    let list = model_type == "list_model"@;
    if relation_of_field(f) is Some && (create_or_update || list) {
        false
    } else if f.join is Some && create_or_update {
        false
    } else if f.join is Some && list && !f.join->0.on_all {
        false
    } else {
        flag_or(f, model_type, true)
    }
}

/// Shared field filtering logic for model generation
/// Determines if a field should be included in a specific model type
pub fn should_include_in_model(field: &FieldModel, model_type: &str) -> (r: bool)
    ensures
        r == included_in_model(*field, model_type@),
{
    // Check the model-specific attribute (create_model, update_model, list_model)
    let include_in_model = match field.crudcrate_bool(model_type) {
        Some(b) => b,
        None => true,
    };
    let create_or_update = str_eq(model_type, "create_model") || str_eq(model_type, "update_model");
    let list = str_eq(model_type, "list_model");
    // SeaORM 2.0 relation fields (HasOne, HasMany) are handled separately
    if is_relation_field(field) {
        if create_or_update || list {
            return false;
        }
    }
    // Handle join field exclusion based on model type

    if let Some(join_config) = &field.join {
        if create_or_update {
            // Create/Update models: exclude ALL join fields
            return false;
        }
        if list && !join_config.on_all {
            // List model: only exclude join(one) fields, keep join(all)
            return false;
        }
    }
    include_in_model
}

/// A relation field added to a generated model: `#[serde(default,
/// skip_serializing_if = "Option::is_none")] pub ident: ty`.
#[derive(Debug, Clone, PartialEq, Eq)]
pub struct RelationStructField<S> {
    pub ident: S,
    pub ty: RelationFieldType<S>,
}

impl View for RelationStructField<String> {
    type V = RelationStructField<Seq<char>>;

    open spec fn view(&self) -> RelationStructField<Seq<char>> {
        RelationStructField { ident: self.ident@, ty: self.ty@ }
    }
}

/// The name of a field that has one.
pub fn field_ident(field: &FieldModel) -> (r: String)
    requires
        field.ident is Some,
    ensures
        r@ == field.ident->0@,
{
    match &field.ident {
        Some(ident) => ident.clone(),
        None => String::new(),
    }
}

} // verus!
