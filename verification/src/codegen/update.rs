//! The Update model: its fields, and the merge of an Update value into a
//! model.
use vstd::prelude::*;

use crate::codegen::{flag_or, included_in_model, should_include_in_model, RelationStructField};
use crate::model::{last_segment, last_segment_of, FieldModel, TypeModel};
use crate::relations::{
    detect_relation_field, generate_update_field_type, included_in_update, opt_chars,
    relation_of_field, should_include_relation_in_update, update_field_type, RelationFieldInfo,
    RelationFieldType, RelationInfo, RelationKind, RelationType,
};
use crate::text::str_eq;

verus! {

/// A field of the Update model.
#[derive(Debug, Clone, PartialEq, Eq)]
pub enum UpdateStructField<S> {
    /// A relation field: `#[serde(default, skip_serializing_if = "Option::is_none")] pub ident: ty`
    Relation { ident: Option<S>, ty: RelationFieldType<S> },
    /// A non-database field, typed for the Update model by the crate's
    /// target-model resolution and given its optional default.
    NonDb { ident: Option<S> },
    /// `#[serde(default, skip_serializing_if = "Option::is_none", with = "double_option")]
    /// pub ident: Option<Option<inner>>`: outer `None` leaves the field
    /// unchanged, inner `None` sets it to null.
    DoubleOption { ident: Option<S>, inner: S },
}

impl View for UpdateStructField<String> {
    type V = UpdateStructField<Seq<char>>;

    open spec fn view(&self) -> UpdateStructField<Seq<char>> {
        match self {
            UpdateStructField::Relation { ident, ty } => UpdateStructField::Relation {
                ident: opt_chars(*ident),
                ty: ty@,
            },
            UpdateStructField::NonDb { ident } => UpdateStructField::NonDb {
                ident: opt_chars(*ident),
            },
            UpdateStructField::DoubleOption { ident, inner } => UpdateStructField::DoubleOption {
                ident: opt_chars(*ident),
                inner: inner@,
            },
        }
    }
}

/// The type that an Update field wraps: `T` for a field of type `Option<T>`,
/// else the field's own type.
pub open spec fn update_inner_type(ty: TypeModel) -> Seq<char> {
    match last_segment(ty) {
        Some(seg) if seg.ident@ == "Option"@ && seg.first_type_arg is Some => {
            seg.first_type_arg->0.tokens@
        },
        _ => ty.tokens@,
    }
}

/// The Update model's field for `f`.
pub open spec fn update_struct_field_of(f: FieldModel) -> UpdateStructField<Seq<char>> {
    match relation_of_field(f) {
        Some(info) if included_in_update(info.relation_type) => UpdateStructField::Relation {
            ident: opt_chars(f.ident),
            ty: update_field_type(info),
        },
        _ => if flag_or(f, "non_db_attr"@, false) {
            UpdateStructField::NonDb { ident: opt_chars(f.ident) }
        } else {
            UpdateStructField::DoubleOption {
                ident: opt_chars(f.ident),
                inner: update_inner_type(f.ty),
            }
        },
    }
}

fn inner_type_for_update(ty: &TypeModel) -> (r: String)
    ensures
        r@ == update_inner_type(*ty),
{
    if let Some(last_seg) = last_segment_of(ty) {
        if str_eq(last_seg.ident.as_str(), "Option") {
            if let Some(inner) = &last_seg.first_type_arg {
                let inner: &TypeModel = &**inner;
                return inner.tokens.clone();
            }
        }
    }
    ty.tokens.clone()
}

fn update_struct_field(field: &FieldModel) -> (r: UpdateStructField<String>)
    ensures
        r@ == update_struct_field_of(*field),
{
    // Check if this is a SeaORM 2.0 relation field
    if let Some(relation_info) = detect_relation_field(field) {
        if should_include_relation_in_update(&relation_info) {
            let relation_ty = generate_update_field_type(&relation_info);
            return UpdateStructField::Relation { ident: field.ident.clone(), ty: relation_ty };
        }
    }
    let non_db = match field.crudcrate_bool("non_db_attr") {
        Some(b) => b,
        None => false,
    };
    if non_db {
        UpdateStructField::NonDb { ident: field.ident.clone() }
    } else {
        UpdateStructField::DoubleOption {
            ident: field.ident.clone(),
            inner: inner_type_for_update(&field.ty),
        }
    }
}

/// Generates the field declarations for an update struct
pub fn generate_update_struct_fields(included_fields: &Vec<&FieldModel>) -> (r: Vec<
    UpdateStructField<String>,
>)
    ensures
        r@.map_values(|c: UpdateStructField<String>| c@) == included_fields@.map_values(
            |f: &FieldModel| update_struct_field_of(*f),
        ),
{
    let mut out: Vec<UpdateStructField<String>> = Vec::new();
    let n = included_fields.len();
    let mut i: usize = 0;
    while i < n
        invariant
            n == included_fields@.len(),
            i <= n,
            out@.map_values(|c: UpdateStructField<String>| c@) == included_fields@.subrange(
                0,
                i as int,
            ).map_values(|f: &FieldModel| update_struct_field_of(*f)),
        decreases n - i,
    {
        let item = update_struct_field(included_fields[i]);
        assert(item@ == update_struct_field_of(*included_fields@[i as int]));
        let ghost prev = out@;
        out.push(item);
        assert(out@.map_values(|c: UpdateStructField<String>| c@) =~= prev.map_values(
            |c: UpdateStructField<String>| c@,
        ).push(item@));
        assert(included_fields@.subrange(0, i + 1).map_values(
            |f: &FieldModel| update_struct_field_of(*f),
        ) =~= included_fields@.subrange(0, i as int).map_values(
            |f: &FieldModel| update_struct_field_of(*f),
        ).push(update_struct_field_of(*included_fields@[i as int])));
        assert(out@.map_values(|c: UpdateStructField<String>| c@) =~= included_fields@.subrange(
            0,
            i + 1,
        ).map_values(|f: &FieldModel| update_struct_field_of(*f)));
        i = i + 1;
    }
    assert(included_fields@.subrange(0, n as int) =~= included_fields@);
    out
}

/// The fields that belong in the Update model, in order.
pub open spec fn update_fields(fs: Seq<FieldModel>) -> Seq<FieldModel>
    decreases fs.len(),
{
    if fs.len() == 0 {
        seq![]
    } else {
        let prev = update_fields(fs.drop_last());
        if included_in_model(fs.last(), "update_model"@) {
            prev.push(fs.last())
        } else {
            prev
        }
    }
}

/// Filters fields that should be included in update model
pub fn filter_update_fields(fields: &Vec<FieldModel>) -> (r: Vec<&FieldModel>)
    ensures
        r@.map_values(|f: &FieldModel| *f) == update_fields(fields@),
{
    let mut out: Vec<&FieldModel> = Vec::new();
    let n = fields.len();
    let mut i: usize = 0;
    while i < n
        invariant
            n == fields@.len(),
            i <= n,
            out@.map_values(|f: &FieldModel| *f) == update_fields(fields@.subrange(0, i as int)),
        decreases n - i,
    {
        let field = &fields[i];
        assert(fields@.subrange(0, i + 1).drop_last() =~= fields@.subrange(0, i as int));
        if should_include_in_model(field, "update_model") {
            let ghost prev = out@;
            out.push(field);
            assert(out@.map_values(|f: &FieldModel| *f) =~= prev.map_values(
                |f: &FieldModel| *f,
            ).push(*field));
        }
        i = i + 1;
    }
    assert(fields@.subrange(0, n as int) =~= fields@);
    out
}

/// The Update model's relation fields: those of the relations it holds.
pub open spec fn update_relation_fields(infos: Seq<RelationFieldInfo>) -> Seq<
    RelationStructField<Seq<char>>,
>
    decreases infos.len(),
{
    if infos.len() == 0 {
        seq![]
    } else {
        let prev = update_relation_fields(infos.drop_last());
        let info = infos.last()@;
        if included_in_update(info.relation_type) {
            prev.push(RelationStructField { ident: info.field_name, ty: update_field_type(info) })
        } else {
            prev
        }
    }
}

/// Generate relation field struct fields for update model
pub fn generate_update_relation_fields(relation_fields: &Vec<RelationFieldInfo>) -> (r: Vec<
    RelationStructField<String>,
>)
    ensures
        r@.map_values(|c: RelationStructField<String>| c@) == update_relation_fields(
            relation_fields@,
        ),
{
    let mut out: Vec<RelationStructField<String>> = Vec::new();
    let n = relation_fields.len();
    let mut i: usize = 0;
    while i < n
        invariant
            n == relation_fields@.len(),
            i <= n,
            out@.map_values(|c: RelationStructField<String>| c@) == update_relation_fields(
                relation_fields@.subrange(0, i as int),
            ),
        decreases n - i,
    {
        let info = &relation_fields[i];
        assert(relation_fields@.subrange(0, i + 1).drop_last() =~= relation_fields@.subrange(
            0,
            i as int,
        ));
        if should_include_relation_in_update(info) {
            let item = RelationStructField {
                ident: info.field_name.clone(),
                ty: generate_update_field_type(info),
            };
            let ghost prev = out@;
            out.push(item);
            assert(out@.map_values(|c: RelationStructField<String>| c@) =~= prev.map_values(
                |c: RelationStructField<String>| c@,
            ).push(item@));
        }
        i = i + 1;
    }
    assert(relation_fields@.subrange(0, n as int) =~= relation_fields@);
    out
}

/// How an Update value's relation field is merged into the model.
#[derive(Debug, Clone, PartialEq, Eq)]
pub enum RelationMerge<S> {
    /// `if let Some(relation_update) = self.ident { model.ident = match relation_update {
    /// Some(nested) => HasOneModel::Set(Box::new((*nested).into())), None => HasOneModel::NotSet }; }`
    HasOneSet { ident: S },
    /// `if let Some(nested_vec) = self.ident { model.ident = HasManyModel::Replace(..); }`
    HasManyReplace { ident: S },
    /// Nothing is merged (a belongs-to relation is not updated through a nested model).
    Nothing,
}

impl View for RelationMerge<String> {
    type V = RelationMerge<Seq<char>>;

    open spec fn view(&self) -> RelationMerge<Seq<char>> {
        match self {
            RelationMerge::HasOneSet { ident } => RelationMerge::HasOneSet { ident: ident@ },
            RelationMerge::HasManyReplace { ident } => RelationMerge::HasManyReplace {
                ident: ident@,
            },
            RelationMerge::Nothing => RelationMerge::Nothing,
        }
    }
}

/// How a relation of the given kind is merged: a one-to-one relation from its
/// nested value, the many-valued ones by replacing the list, a belongs-to
/// relation not at all.
pub open spec fn relation_merge_of(info: RelationInfo) -> RelationMerge<Seq<char>> {
    match info.relation_type {
        RelationKind::HasOne => RelationMerge::HasOneSet { ident: info.field_name },
        RelationKind::BelongsTo => RelationMerge::Nothing,
        _ => RelationMerge::HasManyReplace { ident: info.field_name },
    }
}

/// The merges of the relations that the Update model holds, in order.
pub open spec fn update_relation_merges(infos: Seq<RelationFieldInfo>) -> Seq<
    RelationMerge<Seq<char>>,
>
    decreases infos.len(),
{
    if infos.len() == 0 {
        seq![]
    } else {
        let prev = update_relation_merges(infos.drop_last());
        let info = infos.last()@;
        if included_in_update(info.relation_type) {
            prev.push(relation_merge_of(info))
        } else {
            prev
        }
    }
}

/// Generate merge lines for relation fields in update model
pub fn generate_update_relation_merge_lines(relation_fields: &Vec<RelationFieldInfo>) -> (r: Vec<
    RelationMerge<String>,
>)
    ensures
        r@.map_values(|c: RelationMerge<String>| c@) == update_relation_merges(relation_fields@),
{
    let mut out: Vec<RelationMerge<String>> = Vec::new();
    let n = relation_fields.len();
    let mut i: usize = 0;
    while i < n
        invariant
            n == relation_fields@.len(),
            i <= n,
            out@.map_values(|c: RelationMerge<String>| c@) == update_relation_merges(
                relation_fields@.subrange(0, i as int),
            ),
        decreases n - i,
    {
        let info = &relation_fields[i];
        assert(relation_fields@.subrange(0, i + 1).drop_last() =~= relation_fields@.subrange(
            0,
            i as int,
        ));
        if should_include_relation_in_update(info) {
            let item = match &info.relation_type {
                RelationType::HasOne => RelationMerge::HasOneSet {
                    ident: info.field_name.clone(),
                },
                RelationType::HasMany
                | RelationType::HasManyVia { .. }
                | RelationType::SelfRef { .. } => RelationMerge::HasManyReplace {
                    ident: info.field_name.clone(),
                },
                RelationType::BelongsTo => RelationMerge::Nothing,
            };
            let ghost prev = out@;
            out.push(item);
            assert(out@.map_values(|c: RelationMerge<String>| c@) =~= prev.map_values(
                |c: RelationMerge<String>| c@,
            ).push(item@));
        }
        i = i + 1;
    }
    assert(relation_fields@.subrange(0, n as int) =~= relation_fields@);
    out
}

} // verus!
