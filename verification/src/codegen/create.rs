//! The Create model: its fields, and the conversion of a Create value into
//! an active model.
use vstd::prelude::*;

use crate::codegen::{
    field_ident, flag_or, included_in_model, should_include_in_model, RelationStructField,
};
use crate::model::FieldModel;
use crate::relations::{
    create_field_type, detect_relation_field, generate_create_field_type, included_in_create,
    opt_chars, relation_of_field, should_include_relation_in_create, RelationFieldInfo,
    RelationFieldType, RelationInfo, RelationKind, RelationType,
};

verus! {

/// How the conversion of a Create value into an active model sets a field.
#[derive(Debug, Clone, PartialEq, Eq)]
pub enum CreateConversion<S> {
    /// An optional field with an `on_create` default:
    /// `ident: Set(match create.ident { Some(Some(inner)) => Some(inner.into()),
    /// Some(None) => None, None => Some((expr).into()) })`
    OptionalWithDefault { ident: S, expr: S },
    /// A required field with an `on_create` default:
    /// `ident: Set(match create.ident { Some(val) => val.into(), None => (expr).into() })`
    WithDefault { ident: S, expr: S },
    /// An optional field: `ident: Set(create.ident.map(|v| v.into()))`
    OptionalInto { ident: S },
    /// A required field: `ident: Set(create.ident.into())`
    Into { ident: S },
    /// A field left out of the Create model, set from its `on_create` expression.
    SetFromExpr { ident: S, expr: S, is_optional: bool },
    /// A field left out of the Create model without `on_create`: `ident: NotSet`,
    /// so that a custom create function can set it.
    NotSet { ident: S },
}

impl View for CreateConversion<String> {
    type V = CreateConversion<Seq<char>>;

    open spec fn view(&self) -> CreateConversion<Seq<char>> {
        match self {
            CreateConversion::OptionalWithDefault { ident, expr } => {
                CreateConversion::OptionalWithDefault { ident: ident@, expr: expr@ }
            },
            CreateConversion::WithDefault { ident, expr } => CreateConversion::WithDefault {
                ident: ident@,
                expr: expr@,
            },
            CreateConversion::OptionalInto { ident } => CreateConversion::OptionalInto {
                ident: ident@,
            },
            CreateConversion::Into { ident } => CreateConversion::Into { ident: ident@ },
            CreateConversion::SetFromExpr { ident, expr, is_optional } => {
                CreateConversion::SetFromExpr {
                    ident: ident@,
                    expr: expr@,
                    is_optional: *is_optional,
                }
            },
            CreateConversion::NotSet { ident } => CreateConversion::NotSet { ident: ident@ },
        }
    }
}

/// How a field is converted, or `None` for a non-database field, which the
/// active model does not hold.
pub open spec fn create_conversion_of(f: FieldModel) -> Option<CreateConversion<Seq<char>>> {
    if flag_or(f, "non_db_attr"@, false) {
        None
    } else {
        let ident = f.ident->0@;
        Some(
            if flag_or(f, "create_model"@, true) {
                match f.on_create {
                    Some(expr) => if f.is_optional {
                        CreateConversion::OptionalWithDefault { ident, expr: expr@ }
                    } else {
                        CreateConversion::WithDefault { ident, expr: expr@ }
                    },
                    None => if f.is_optional {
                        CreateConversion::OptionalInto { ident }
                    } else {
                        CreateConversion::Into { ident }
                    },
                }
            } else {
                match f.on_create {
                    Some(expr) => CreateConversion::SetFromExpr {
                        ident,
                        expr: expr@,
                        is_optional: f.is_optional,
                    },
                    None => CreateConversion::NotSet { ident },
                }
            },
        )
    }
}

/// The conversions of the fields, in order.
pub open spec fn create_conversions(fs: Seq<FieldModel>) -> Seq<CreateConversion<Seq<char>>>
    decreases fs.len(),
{
    if fs.len() == 0 {
        seq![]
    } else {
        let prev = create_conversions(fs.drop_last());
        match create_conversion_of(fs.last()) {
            Some(c) => prev.push(c),
            None => prev,
        }
    }
}

/// Every field that the active model holds has a name.
pub open spec fn converted_fields_named(fs: Seq<FieldModel>) -> bool {
    forall|i: int|
        0 <= i < fs.len() && !flag_or(fs[i], "non_db_attr"@, false) ==> (#[trigger] fs[i]).ident is Some
}

/// Generates the conversion lines for a create model to active model conversion
pub fn generate_create_conversion_lines(fields: &Vec<FieldModel>) -> (r: Vec<
    CreateConversion<String>,
>)
    requires
        converted_fields_named(fields@),
    ensures
        r@.map_values(|c: CreateConversion<String>| c@) == create_conversions(fields@),
{
    let mut conv_lines: Vec<CreateConversion<String>> = Vec::new();
    let n = fields.len();
    let mut i: usize = 0;
    while i < n
        invariant
            n == fields@.len(),
            i <= n,
            converted_fields_named(fields@),
            conv_lines@.map_values(|c: CreateConversion<String>| c@) == create_conversions(
                fields@.subrange(0, i as int),
            ),
        decreases n - i,
    {
        let field = &fields[i];
        assert(fields@.subrange(0, i + 1).drop_last() =~= fields@.subrange(0, i as int));
        let non_db = match field.crudcrate_bool("non_db_attr") {
            Some(b) => b,
            None => false,
        };
        if !non_db {
            assert(fields@[i as int].ident is Some);
            let ident = field_ident(field);
            let in_create_model = match field.crudcrate_bool("create_model") {
                Some(b) => b,
                None => true,
            };
            let is_optional = field.is_optional;
            let line = if in_create_model {
                match &field.on_create {
                    Some(expr) => if is_optional {
                        CreateConversion::OptionalWithDefault { ident, expr: expr.clone() }
                    } else {
                        CreateConversion::WithDefault { ident, expr: expr.clone() }
                    },
                    None => if is_optional {
                        CreateConversion::OptionalInto { ident }
                    } else {
                        CreateConversion::Into { ident }
                    },
                }
            } else {
                match &field.on_create {
                    Some(expr) => CreateConversion::SetFromExpr {
                        ident,
                        expr: expr.clone(),
                        is_optional,
                    },
                    None => CreateConversion::NotSet { ident },
                }
            };
            let ghost prev = conv_lines@;
            conv_lines.push(line);
            assert(conv_lines@.map_values(|c: CreateConversion<String>| c@) =~= prev.map_values(
                |c: CreateConversion<String>| c@,
            ).push(line@));
        }
        i = i + 1;
    }
    assert(fields@.subrange(0, n as int) =~= fields@);
    conv_lines
}

/// A field of the Create model.
#[derive(Debug, Clone, PartialEq, Eq)]
pub enum CreateStructField<S> {
    /// A relation field: `#[serde(default, skip_serializing_if = "Option::is_none")] pub ident: ty`
    Relation { ident: Option<S>, ty: RelationFieldType<S> },
    /// A non-database field, typed for the Create model by the crate's
    /// target-model resolution and given its optional default.
    NonDb { ident: Option<S> },
    /// A field with an `on_create` default: `#[serde(default)] pub ident: Option<ty>`
    Defaulted { ident: Option<S>, ty: S },
    /// `pub ident: ty`
    Plain { ident: Option<S>, ty: S },
}

impl View for CreateStructField<String> {
    type V = CreateStructField<Seq<char>>;

    open spec fn view(&self) -> CreateStructField<Seq<char>> {
        match self {
            CreateStructField::Relation { ident, ty } => CreateStructField::Relation {
                ident: opt_chars(*ident),
                ty: ty@,
            },
            CreateStructField::NonDb { ident } => CreateStructField::NonDb {
                ident: opt_chars(*ident),
            },
            CreateStructField::Defaulted { ident, ty } => CreateStructField::Defaulted {
                ident: opt_chars(*ident),
                ty: ty@,
            },
            CreateStructField::Plain { ident, ty } => CreateStructField::Plain {
                ident: opt_chars(*ident),
                ty: ty@,
            },
        }
    }
}

/// The Create model's field for `f`.
pub open spec fn create_struct_field_of(f: FieldModel) -> CreateStructField<Seq<char>> {
    match relation_of_field(f) {
        Some(info) if included_in_create(info.relation_type) => CreateStructField::Relation {
            ident: opt_chars(f.ident),
            ty: create_field_type(info),
        },
        _ => if flag_or(f, "non_db_attr"@, false) {
            CreateStructField::NonDb { ident: opt_chars(f.ident) }
        } else if f.on_create is Some {
            CreateStructField::Defaulted { ident: opt_chars(f.ident), ty: f.ty.tokens@ }
        } else {
            CreateStructField::Plain { ident: opt_chars(f.ident), ty: f.ty.tokens@ }
        },
    }
}

/// The Create model's fields: those that belong in it, in order.
pub open spec fn create_struct_fields(fs: Seq<FieldModel>) -> Seq<CreateStructField<Seq<char>>>
    decreases fs.len(),
{
    if fs.len() == 0 {
        seq![]
    } else {
        let prev = create_struct_fields(fs.drop_last());
        if included_in_model(fs.last(), "create_model"@) {
            prev.push(create_struct_field_of(fs.last()))
        } else {
            prev
        }
    }
}

fn create_struct_field(field: &FieldModel) -> (r: CreateStructField<String>)
    ensures
        r@ == create_struct_field_of(*field),
{
    // Check if this is a SeaORM 2.0 relation field
    if let Some(relation_info) = detect_relation_field(field) {
        if should_include_relation_in_create(&relation_info) {
            let relation_ty = generate_create_field_type(&relation_info);
            return CreateStructField::Relation { ident: field.ident.clone(), ty: relation_ty };
        }
    }
    let non_db = match field.crudcrate_bool("non_db_attr") {
        Some(b) => b,
        None => false,
    };
    if non_db {
        CreateStructField::NonDb { ident: field.ident.clone() }
    } else if field.on_create.is_some() {
        CreateStructField::Defaulted { ident: field.ident.clone(), ty: field.ty.tokens.clone() }
    } else {
        CreateStructField::Plain { ident: field.ident.clone(), ty: field.ty.tokens.clone() }
    }
}

/// The fields of the Create model.
pub fn generate_create_struct_fields(fields: &Vec<FieldModel>) -> (r: Vec<
    CreateStructField<String>,
>)
    ensures
        r@.map_values(|c: CreateStructField<String>| c@) == create_struct_fields(fields@),
{
    let mut out: Vec<CreateStructField<String>> = Vec::new();
    let n = fields.len();
    let mut i: usize = 0;
    while i < n
        invariant
            n == fields@.len(),
            i <= n,
            out@.map_values(|c: CreateStructField<String>| c@) == create_struct_fields(
                fields@.subrange(0, i as int),
            ),
        decreases n - i,
    {
        let field = &fields[i];
        assert(fields@.subrange(0, i + 1).drop_last() =~= fields@.subrange(0, i as int));
        if should_include_in_model(field, "create_model") {
            let item = create_struct_field(field);
            let ghost prev = out@;
            out.push(item);
            assert(out@.map_values(|c: CreateStructField<String>| c@) =~= prev.map_values(
                |c: CreateStructField<String>| c@,
            ).push(item@));
        }
        i = i + 1;
    }
    assert(fields@.subrange(0, n as int) =~= fields@);
    out
}

/// The Create model's relation fields: those of the relations it holds.
pub open spec fn create_relation_fields(infos: Seq<RelationFieldInfo>) -> Seq<
    RelationStructField<Seq<char>>,
>
    decreases infos.len(),
{
    if infos.len() == 0 {
        seq![]
    } else {
        let prev = create_relation_fields(infos.drop_last());
        let info = infos.last()@;
        if included_in_create(info.relation_type) {
            prev.push(RelationStructField { ident: info.field_name, ty: create_field_type(info) })
        } else {
            prev
        }
    }
}

/// Generate relation field struct fields for create model
pub fn generate_create_relation_fields(relation_fields: &Vec<RelationFieldInfo>) -> (r: Vec<
    RelationStructField<String>,
>)
    ensures
        r@.map_values(|c: RelationStructField<String>| c@) == create_relation_fields(
            relation_fields@,
        ),
{
    let mut out: Vec<RelationStructField<String>> = Vec::new();
    let n = relation_fields.len();
    let mut i: usize = 0;
    while i < n
        invariant
            n == relation_fields@.len(),
            i <= n,
            out@.map_values(|c: RelationStructField<String>| c@) == create_relation_fields(
                relation_fields@.subrange(0, i as int),
            ),
        decreases n - i,
    {
        let info = &relation_fields[i];
        assert(relation_fields@.subrange(0, i + 1).drop_last() =~= relation_fields@.subrange(
            0,
            i as int,
        ));
        if should_include_relation_in_create(info) {
            let item = RelationStructField {
                ident: info.field_name.clone(),
                ty: generate_create_field_type(info),
            };
            let ghost prev = out@;
            out.push(item);
            assert(out@.map_values(|c: RelationStructField<String>| c@) =~= prev.map_values(
                |c: RelationStructField<String>| c@,
            ).push(item@));
        }
        i = i + 1;
    }
    assert(relation_fields@.subrange(0, n as int) =~= relation_fields@);
    out
}

/// How the conversion of a Create value sets a relation field.
#[derive(Debug, Clone, PartialEq, Eq)]
pub enum RelationConversion<S> {
    /// `ident: match create.ident { Some(nested) => HasOneModel::Set(Box::new((*nested).into())),
    /// None => HasOneModel::NotSet }`
    HasOneSet { ident: S },
    /// `ident: match create.ident { Some(nested_vec) => HasManyModel::Append(..),
    /// None => HasManyModel::NotSet }`
    HasManyAppend { ident: S },
    /// `ident: HasOneModel::NotSet`
    HasOneNotSet { ident: S },
}

impl View for RelationConversion<String> {
    type V = RelationConversion<Seq<char>>;

    open spec fn view(&self) -> RelationConversion<Seq<char>> {
        match self {
            RelationConversion::HasOneSet { ident } => RelationConversion::HasOneSet {
                ident: ident@,
            },
            RelationConversion::HasManyAppend { ident } => RelationConversion::HasManyAppend {
                ident: ident@,
            },
            RelationConversion::HasOneNotSet { ident } => RelationConversion::HasOneNotSet {
                ident: ident@,
            },
        }
    }
}

/// How a relation of the given kind is set: a one-to-one relation from its
/// nested value, the many-valued ones by appending the nested list, a
/// belongs-to relation not at all.
pub open spec fn relation_conversion_of(info: RelationInfo) -> RelationConversion<Seq<char>> {
    match info.relation_type {
        RelationKind::HasOne => RelationConversion::HasOneSet { ident: info.field_name },
        RelationKind::BelongsTo => RelationConversion::HasOneNotSet { ident: info.field_name },
        _ => RelationConversion::HasManyAppend { ident: info.field_name },
    }
}

/// The conversions of the relations that the Create model holds, in order.
pub open spec fn create_relation_conversions(infos: Seq<RelationFieldInfo>) -> Seq<
    RelationConversion<Seq<char>>,
>
    decreases infos.len(),
{
    if infos.len() == 0 {
        seq![]
    } else {
        let prev = create_relation_conversions(infos.drop_last());
        let info = infos.last()@;
        if included_in_create(info.relation_type) {
            prev.push(relation_conversion_of(info))
        } else {
            prev
        }
    }
}

/// Generate conversion lines for relation fields in create model
pub fn generate_create_relation_conversion_lines(relation_fields: &Vec<RelationFieldInfo>) -> (r:
    Vec<RelationConversion<String>>)
    ensures
        r@.map_values(|c: RelationConversion<String>| c@) == create_relation_conversions(
            relation_fields@,
        ),
{
    let mut out: Vec<RelationConversion<String>> = Vec::new();
    let n = relation_fields.len();
    let mut i: usize = 0;
    while i < n
        invariant
            n == relation_fields@.len(),
            i <= n,
            out@.map_values(|c: RelationConversion<String>| c@) == create_relation_conversions(
                relation_fields@.subrange(0, i as int),
            ),
        decreases n - i,
    {
        let info = &relation_fields[i];
        assert(relation_fields@.subrange(0, i + 1).drop_last() =~= relation_fields@.subrange(
            0,
            i as int,
        ));
        if should_include_relation_in_create(info) {
            let ident = info.field_name.clone();
            let item = match &info.relation_type {
                RelationType::HasOne => RelationConversion::HasOneSet { ident },
                RelationType::HasMany
                | RelationType::HasManyVia { .. }
                | RelationType::SelfRef { .. } => RelationConversion::HasManyAppend { ident },
                RelationType::BelongsTo => RelationConversion::HasOneNotSet { ident },
            };
            let ghost prev = out@;
            out.push(item);
            assert(out@.map_values(|c: RelationConversion<String>| c@) =~= prev.map_values(
                |c: RelationConversion<String>| c@,
            ).push(item@));
        }
        i = i + 1;
    }
    assert(relation_fields@.subrange(0, n as int) =~= relation_fields@);
    out
}

} // verus!
