//! The per-field plans of a model, taken over a whole field list: each list
//! plan is the per-field plan of the fields that the model holds, in the
//! fields' order (stated with `Seq::filter` and `Seq::map_values`).
use vstd::prelude::*;

use crate::codegen::create::{
    create_conversion_of, create_conversions, create_relation_conversions,
    create_relation_fields, create_struct_field_of, create_struct_fields,
    relation_conversion_of,
};
use crate::codegen::response::{
    in_one_model, response_assignment_of, response_assignments, response_struct_field_of,
    response_struct_fields,
};
use crate::codegen::update::{
    relation_merge_of, update_fields, update_relation_fields, update_relation_merges,
};
use crate::codegen::{flag_or, included_in_model, RelationStructField};
use crate::model::FieldModel;
use crate::relations::{
    create_field_type, included_in_create, included_in_update, update_field_type,
    RelationFieldInfo,
};

verus! {

/// The Create-to-ActiveModel conversion sets the fields that are not
/// non-database fields, in order, each by its own conversion.
pub proof fn create_conversions_cover_database_fields(fs: Seq<FieldModel>)
    ensures
        create_conversions(fs) == fs.filter(|f: FieldModel| !flag_or(f, "non_db_attr"@, false)).map_values(
            |f: FieldModel| create_conversion_of(f)->0,
        ),
    decreases fs.len(),
{
    reveal(Seq::filter);
    if fs.len() > 0 {
        create_conversions_cover_database_fields(fs.drop_last());
        let pred = |f: FieldModel| !flag_or(f, "non_db_attr"@, false);
        let g = |f: FieldModel| create_conversion_of(f)->0;
        let sub = fs.drop_last().filter(pred);
        if pred(fs.last()) {
            assert(sub.push(fs.last()).map_values(g) =~= sub.map_values(g).push(g(fs.last())));
        }
    }
}

/// The Create model's fields are those of the fields that belong in it, in order.
pub proof fn create_struct_fields_cover_included_fields(fs: Seq<FieldModel>)
    ensures
        create_struct_fields(fs) == fs.filter(|f: FieldModel| included_in_model(f, "create_model"@)).map_values(
            |f: FieldModel| create_struct_field_of(f),
        ),
    decreases fs.len(),
{
    reveal(Seq::filter);
    if fs.len() > 0 {
        create_struct_fields_cover_included_fields(fs.drop_last());
        let pred = |f: FieldModel| included_in_model(f, "create_model"@);
        let g = |f: FieldModel| create_struct_field_of(f);
        let sub = fs.drop_last().filter(pred);
        if pred(fs.last()) {
            assert(sub.push(fs.last()).map_values(g) =~= sub.map_values(g).push(g(fs.last())));
        }
    }
}

/// The Update model's fields are the fields that belong in it, in order.
pub proof fn update_fields_are_included_fields(fs: Seq<FieldModel>)
    ensures
        update_fields(fs) == fs.filter(|f: FieldModel| included_in_model(f, "update_model"@)),
    decreases fs.len(),
{
    reveal(Seq::filter);
    if fs.len() > 0 {
        update_fields_are_included_fields(fs.drop_last());
    }
}

/// The Response assignments are those of the fields shown in single-item
/// responses, in order.
pub proof fn response_assignments_cover_shown_fields(fs: Seq<FieldModel>)
    ensures
        response_assignments(fs) == fs.filter(|f: FieldModel| in_one_model(f)).map_values(
            |f: FieldModel| response_assignment_of(f),
        ),
    decreases fs.len(),
{
    reveal(Seq::filter);
    if fs.len() > 0 {
        response_assignments_cover_shown_fields(fs.drop_last());
        let pred = |f: FieldModel| in_one_model(f);
        let g = |f: FieldModel| response_assignment_of(f);
        let sub = fs.drop_last().filter(pred);
        if pred(fs.last()) {
            assert(sub.push(fs.last()).map_values(g) =~= sub.map_values(g).push(g(fs.last())));
        }
    }
}

/// The Response model's fields are those of the fields shown in single-item
/// responses, in order.
pub proof fn response_struct_fields_cover_shown_fields(
    fs: Seq<FieldModel>,
    api_struct_name: Seq<char>,
    skip_utoipa: bool,
)
    ensures
        response_struct_fields(fs, api_struct_name, skip_utoipa) == fs.filter(
            |f: FieldModel| in_one_model(f),
        ).map_values(|f: FieldModel| response_struct_field_of(f, api_struct_name, skip_utoipa)),
    decreases fs.len(),
{
    reveal(Seq::filter);
    if fs.len() > 0 {
        response_struct_fields_cover_shown_fields(fs.drop_last(), api_struct_name, skip_utoipa);
        let pred = |f: FieldModel| in_one_model(f);
        let g = |f: FieldModel| response_struct_field_of(f, api_struct_name, skip_utoipa);
        let sub = fs.drop_last().filter(pred);
        if pred(fs.last()) {
            assert(sub.push(fs.last()).map_values(g) =~= sub.map_values(g).push(g(fs.last())));
        }
    }
}

/// The Create model's relation fields are those of the relations it holds, in
/// order, each typed by the relation's Create type.
pub proof fn create_relation_fields_cover_create_relations(infos: Seq<RelationFieldInfo>)
    ensures
        create_relation_fields(infos) == infos.filter(
            |i: RelationFieldInfo| included_in_create(i@.relation_type),
        ).map_values(
            |i: RelationFieldInfo|
                RelationStructField { ident: i@.field_name, ty: create_field_type(i@) },
        ),
    decreases infos.len(),
{
    reveal(Seq::filter);
    if infos.len() > 0 {
        create_relation_fields_cover_create_relations(infos.drop_last());
        let pred = |i: RelationFieldInfo| included_in_create(i@.relation_type);
        let g = |i: RelationFieldInfo|
            RelationStructField { ident: i@.field_name, ty: create_field_type(i@) };
        let sub = infos.drop_last().filter(pred);
        if pred(infos.last()) {
            assert(sub.push(infos.last()).map_values(g) =~= sub.map_values(g).push(
                g(infos.last()),
            ));
        }
    }
}

/// The Create conversions of relations are those of the relations the Create
/// model holds, in order.
pub proof fn create_relation_conversions_cover_create_relations(infos: Seq<RelationFieldInfo>)
    ensures
        create_relation_conversions(infos) == infos.filter(
            |i: RelationFieldInfo| included_in_create(i@.relation_type),
        ).map_values(|i: RelationFieldInfo| relation_conversion_of(i@)),
    decreases infos.len(),
{
    reveal(Seq::filter);
    if infos.len() > 0 {
        create_relation_conversions_cover_create_relations(infos.drop_last());
        let pred = |i: RelationFieldInfo| included_in_create(i@.relation_type);
        let g = |i: RelationFieldInfo| relation_conversion_of(i@);
        let sub = infos.drop_last().filter(pred);
        if pred(infos.last()) {
            assert(sub.push(infos.last()).map_values(g) =~= sub.map_values(g).push(
                g(infos.last()),
            ));
        }
    }
}

/// The Update model's relation fields are those of the relations it holds,
/// in order, each typed by the relation's Update type.
pub proof fn update_relation_fields_cover_update_relations(infos: Seq<RelationFieldInfo>)
    ensures
        update_relation_fields(infos) == infos.filter(
            |i: RelationFieldInfo| included_in_update(i@.relation_type),
        ).map_values(
            |i: RelationFieldInfo|
                RelationStructField { ident: i@.field_name, ty: update_field_type(i@) },
        ),
    decreases infos.len(),
{
    reveal(Seq::filter);
    if infos.len() > 0 {
        update_relation_fields_cover_update_relations(infos.drop_last());
        let pred = |i: RelationFieldInfo| included_in_update(i@.relation_type);
        let g = |i: RelationFieldInfo|
            RelationStructField { ident: i@.field_name, ty: update_field_type(i@) };
        let sub = infos.drop_last().filter(pred);
        if pred(infos.last()) {
            assert(sub.push(infos.last()).map_values(g) =~= sub.map_values(g).push(
                g(infos.last()),
            ));
        }
    }
}

/// The Update merges of relations are those of the relations the Update
/// model holds, in order.
pub proof fn update_relation_merges_cover_update_relations(infos: Seq<RelationFieldInfo>)
    ensures
        update_relation_merges(infos) == infos.filter(
            |i: RelationFieldInfo| included_in_update(i@.relation_type),
        ).map_values(|i: RelationFieldInfo| relation_merge_of(i@)),
    decreases infos.len(),
{
    reveal(Seq::filter);
    if infos.len() > 0 {
        update_relation_merges_cover_update_relations(infos.drop_last());
        let pred = |i: RelationFieldInfo| included_in_update(i@.relation_type);
        let g = |i: RelationFieldInfo| relation_merge_of(i@);
        let sub = infos.drop_last().filter(pred);
        if pred(infos.last()) {
            assert(sub.push(infos.last()).map_values(g) =~= sub.map_values(g).push(
                g(infos.last()),
            ));
        }
    }
}

} // verus!
