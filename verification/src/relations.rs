//! SeaORM 2.0 relation field detection.
//!
//! A field is a relation field when its type is `HasOne<E>` or `HasMany<E>`,
//! or when a `#[sea_orm(...)]` attribute names a relation (`has_one`,
//! `has_many`, `belongs_to`, `self_ref`) and its type wraps the related
//! entity in `Option<...>` (optionally boxed).
use vstd::prelude::*;

use crate::model::{last_segment, last_segment_of, AttrModel, FieldModel, TypeModel};
use crate::text::{
    attr_value, contains, extract_attr_value, pascal_case, str_contains, str_eq, to_pascal_case,
};

verus! {

/// Types of relations supported by SeaORM 2.0
#[derive(Debug, Clone, PartialEq, Eq)]
pub enum RelationType {
    /// One-to-one relationship (has_one)
    HasOne,
    /// One-to-many relationship (has_many)
    HasMany,
    /// Belongs to relationship (inverse of has_one/has_many)
    BelongsTo,
    /// Many-to-many relationship via junction table
    HasManyVia { via: String },
    /// Self-referential relationship
    SelfRef { via: Option<String>, reverse: bool },
}

/// The mathematical value of a [`RelationType`].
pub enum RelationKind {
    HasOne,
    HasMany,
    BelongsTo,
    HasManyVia { via: Seq<char> },
    SelfRef { via: Option<Seq<char>>, reverse: bool },
}

/// The characters of an optional string.
pub open spec fn opt_chars(o: Option<String>) -> Option<Seq<char>> {
    match o {
        Some(s) => Some(s@),
        None => None,
    }
}

impl View for RelationType {
    type V = RelationKind;

    open spec fn view(&self) -> RelationKind {
        match self {
            RelationType::HasOne => RelationKind::HasOne,
            RelationType::HasMany => RelationKind::HasMany,
            RelationType::BelongsTo => RelationKind::BelongsTo,
            RelationType::HasManyVia { via } => RelationKind::HasManyVia { via: via@ },
            RelationType::SelfRef { via, reverse } => RelationKind::SelfRef {
                via: opt_chars(*via),
                reverse: *reverse,
            },
        }
    }
}

/// Foreign key information for belongs_to relations
#[derive(Debug, Clone, PartialEq, Eq)]
pub struct ForeignKeyInfo {
    /// The local column name (from)
    pub from_column: String,
    /// The remote column name (to)
    pub to_column: String,
}

/// The mathematical value of a [`ForeignKeyInfo`].
pub struct ForeignKey {
    pub from_column: Seq<char>,
    pub to_column: Seq<char>,
}

impl View for ForeignKeyInfo {
    type V = ForeignKey;

    open spec fn view(&self) -> ForeignKey {
        ForeignKey { from_column: self.from_column@, to_column: self.to_column@ }
    }
}

/// The value of an optional foreign key.
pub open spec fn opt_foreign_key(o: Option<ForeignKeyInfo>) -> Option<ForeignKey> {
    match o {
        Some(fk) => Some(fk@),
        None => None,
    }
}

/// Information about a relation field
#[derive(Debug, Clone, PartialEq, Eq)]
pub struct RelationFieldInfo {
    /// The field identifier
    pub field_name: String,
    /// The type of relation
    pub relation_type: RelationType,
    /// The related entity path's token text (e.g., `super :: profile :: Entity`)
    pub related_entity_path: String,
    /// The related entity's model name (e.g., `Profile`)
    pub related_model_name: String,
    /// Foreign key information for belongs_to relations
    pub foreign_key: Option<ForeignKeyInfo>,
}

/// The mathematical value of a [`RelationFieldInfo`].
pub struct RelationInfo {
    pub field_name: Seq<char>,
    pub relation_type: RelationKind,
    pub related_entity_path: Seq<char>,
    pub related_model_name: Seq<char>,
    pub foreign_key: Option<ForeignKey>,
}

impl View for RelationFieldInfo {
    type V = RelationInfo;

    open spec fn view(&self) -> RelationInfo {
        RelationInfo {
            field_name: self.field_name@,
            relation_type: self.relation_type@,
            related_entity_path: self.related_entity_path@,
            related_model_name: self.related_model_name@,
            foreign_key: opt_foreign_key(self.foreign_key),
        }
    }
}

// ---------------------------------------------------------------------------
// Model names from entity paths
// ---------------------------------------------------------------------------

/// The index of the first segment named `Entity` at or after `i` (and after
/// the first segment).
pub open spec fn entity_index_from(segs: Seq<crate::model::PathSegmentModel>, i: int) -> Option<
    int,
>
    decreases segs.len() - i,
{
    if i < 1 || i >= segs.len() {
        None
    } else if segs[i].ident@ == "Entity"@ {
        Some(i)
    } else {
        entity_index_from(segs, i + 1)
    }
}

/// The model name of an entity path like `super::profile::Entity`: the
/// PascalCase form of the segment before the first `Entity` segment; failing
/// that, of the last segment unless it is `Entity`; failing that, `Unknown`.
pub open spec fn model_name_of(ty: TypeModel) -> Seq<char> {
    match ty.path {
        Some(segs) => match entity_index_from(segs@, 1) {
            Some(i) => pascal_case(segs@[i - 1].ident@),
            None => if segs@.len() > 0 && segs@.last().ident@ != "Entity"@ {
                pascal_case(segs@.last().ident@)
            } else {
                "Unknown"@
            },
        },
        None => "Unknown"@,
    }
}

/// Extract the model name from an entity path like `super::profile::Entity`
pub fn extract_model_name_from_entity_path(ty: &TypeModel) -> (r: String)
    ensures
        r@ == model_name_of(*ty),
{
    match &ty.path {
        Some(segs) => {
            let n = segs.len();
            let mut i: usize = 1;
            while i < n
                invariant
                    ty.path == Some(*segs),
                    n == segs@.len(),
                    1 <= i,
                    entity_index_from(segs@, 1) == entity_index_from(segs@, i as int),
                decreases n - i,
            {
                if str_eq(segs[i].ident.as_str(), "Entity") {
                    assert(entity_index_from(segs@, i as int) == Some(i as int));
                    let name = to_pascal_case(segs[i - 1].ident.as_str());
                    assert(name@ == pascal_case(segs@[i - 1].ident@));
                    return name;
                }
                i = i + 1;
            }
            if n > 0 && !str_eq(segs[n - 1].ident.as_str(), "Entity") {
                return to_pascal_case(segs[n - 1].ident.as_str());
            }
            String::from_str("Unknown")
        },
        None => String::from_str("Unknown"),
    }
}

// ---------------------------------------------------------------------------
// Relation types from field types
// ---------------------------------------------------------------------------

/// `HasOne<E>` or `HasMany<E>`: the relation type, `E`'s token text and its
/// model name.
pub open spec fn relation_of_type(ty: TypeModel) -> Option<(RelationKind, Seq<char>, Seq<char>)> {
    match last_segment(ty) {
        Some(seg) => if seg.ident@ == "HasOne"@ || seg.ident@ == "HasMany"@ {
            match seg.first_type_arg {
                Some(inner) => Some(
                    (
                        if seg.ident@ == "HasOne"@ {
                            RelationKind::HasOne
                        } else {
                            RelationKind::HasMany
                        },
                        inner.tokens@,
                        model_name_of(*inner),
                    ),
                ),
                None => None,
            }
        } else {
            None
        },
        None => None,
    }
}

/// Parse the field type to detect HasOne<E> or HasMany<E> patterns
pub fn parse_relation_type(ty: &TypeModel) -> (r: Option<(RelationType, String, String)>)
    ensures
        match r {
            Some((rt, path, name)) => relation_of_type(*ty) == Some((rt@, path@, name@)),
            None => relation_of_type(*ty) is None,
        },
{
    let seg = match last_segment_of(ty) {
        Some(seg) => seg,
        None => return None,
    };
    let relation_type = if str_eq(seg.ident.as_str(), "HasOne") {
        RelationType::HasOne
    } else if str_eq(seg.ident.as_str(), "HasMany") {
        RelationType::HasMany
    } else {
        return None;
    };
    match &seg.first_type_arg {
        Some(inner) => {
            let inner: &TypeModel = &**inner;
            let entity_path = inner.tokens.clone();
            let model_name = extract_model_name_from_entity_path(inner);
            Some((relation_type, entity_path, model_name))
        },
        None => None,
    }
}

/// `Option<Box<E>>` or `Option<E>`: a belongs-to relation to `E`, with `E`'s
/// token text and model name.
pub open spec fn entity_of_option_type(ty: TypeModel) -> Option<
    (RelationKind, Seq<char>, Seq<char>),
> {
    match last_segment(ty) {
        Some(seg) => if seg.ident@ == "Option"@ {
            match seg.first_type_arg {
                Some(inner) => match last_segment(*inner) {
                    Some(iseg) if iseg.ident@ == "Box"@ && iseg.first_type_arg is Some => {
                        let entity = iseg.first_type_arg->0;
                        Some((RelationKind::BelongsTo, entity.tokens@, model_name_of(*entity)))
                    },
                    _ => Some((RelationKind::BelongsTo, inner.tokens@, model_name_of(*inner))),
                },
                None => None,
            }
        } else {
            None
        },
        None => None,
    }
}

/// Extract entity from Option<Box<T>> or similar wrapper types
pub fn extract_entity_from_option_type(ty: &TypeModel) -> (r: Option<
    (RelationType, String, String),
>)
    ensures
        match r {
            Some((rt, path, name)) => entity_of_option_type(*ty) == Some((rt@, path@, name@)),
            None => entity_of_option_type(*ty) is None,
        },
{
    let seg = match last_segment_of(ty) {
        Some(seg) => seg,
        None => return None,
    };
    if !str_eq(seg.ident.as_str(), "Option") {
        return None;
    }
    let inner: &TypeModel = match &seg.first_type_arg {
        Some(inner) => &**inner,
        None => return None,
    };
    if let Some(inner_seg) = last_segment_of(inner) {
        if str_eq(inner_seg.ident.as_str(), "Box") {
            if let Some(entity) = &inner_seg.first_type_arg {
                let entity: &TypeModel = &**entity;
                let entity_path = entity.tokens.clone();
                let model_name = extract_model_name_from_entity_path(entity);
                return Some((RelationType::BelongsTo, entity_path, model_name));
            }
        }
    }
    let entity_path = inner.tokens.clone();
    let model_name = extract_model_name_from_entity_path(inner);
    Some((RelationType::BelongsTo, entity_path, model_name))
}

// ---------------------------------------------------------------------------
// Relation types from `#[sea_orm(...)]` attributes
// ---------------------------------------------------------------------------

/// What one `#[sea_orm(...)]` attribute with token text `t` does to the
/// relation type and foreign key found so far: `has_one`, `has_many` (with
/// `via = "..."` a many-to-many relation), `belongs_to` (with `from`/`to`
/// columns a foreign key) and `self_ref` are checked in that order, and a
/// later match overrides an earlier one.
pub open spec fn apply_sea_orm_tokens(
    found: (Option<RelationKind>, Option<ForeignKey>),
    t: Seq<char>,
) -> (Option<RelationKind>, Option<ForeignKey>) {
    let rt1 = if contains(t, "has_one"@) {
        Some(RelationKind::HasOne)
    } else {
        found.0
    };
    let rt2 = if contains(t, "has_many"@) {
        match attr_value(t, "via"@) {
            Some(via) => Some(RelationKind::HasManyVia { via }),
            None => Some(RelationKind::HasMany),
        }
    } else {
        rt1
    };
    let rt3 = if contains(t, "belongs_to"@) {
        Some(RelationKind::BelongsTo)
    } else {
        rt2
    };
    let fk3 = if contains(t, "belongs_to"@) {
        match (attr_value(t, "from"@), attr_value(t, "to"@)) {
            (Some(from), Some(to)) => Some(ForeignKey { from_column: from, to_column: to }),
            _ => found.1,
        }
    } else {
        found.1
    };
    let rt4 = if contains(t, "self_ref"@) {
        Some(
            RelationKind::SelfRef { via: attr_value(t, "via"@), reverse: contains(t, "reverse"@) },
        )
    } else {
        rt3
    };
    (rt4, fk3)
}

/// The attribute is `#[sea_orm(...)]` with token text `t`.
pub open spec fn sea_orm_list_tokens(a: AttrModel) -> Option<Seq<char>> {
    match a.path_ident {
        Some(id) => if id@ == "sea_orm"@ {
            opt_chars(a.list_tokens)
        } else {
            None
        },
        None => None,
    }
}

/// The relation type and foreign key that a field's `#[sea_orm(...)]`
/// attributes give, read in order.
pub open spec fn sea_orm_relation_attrs(attrs: Seq<AttrModel>) -> (
    Option<RelationKind>,
    Option<ForeignKey>,
)
    decreases attrs.len(),
{
    if attrs.len() == 0 {
        (None, None)
    } else {
        let found = sea_orm_relation_attrs(attrs.drop_last());
        match sea_orm_list_tokens(attrs.last()) {
            Some(t) => apply_sea_orm_tokens(found, t),
            None => found,
        }
    }
}

/// The value of an optional relation type.
pub open spec fn opt_relation(o: Option<RelationType>) -> Option<RelationKind> {
    match o {
        Some(r) => Some(r@),
        None => None,
    }
}

fn apply_sea_orm_tokens_exec(
    relation_type: Option<RelationType>,
    foreign_key: Option<ForeignKeyInfo>,
    tokens_str: &str,
) -> (r: (Option<RelationType>, Option<ForeignKeyInfo>))
    ensures
        (opt_relation(r.0), opt_foreign_key(r.1)) == apply_sea_orm_tokens(
            (opt_relation(relation_type), opt_foreign_key(foreign_key)),
            tokens_str@,
        ),
{
    let mut relation_type = relation_type;
    let mut foreign_key = foreign_key;
    // Check for has_one
    if str_contains(tokens_str, "has_one") {
        relation_type = Some(RelationType::HasOne);
    }
    // Check for has_many

    if str_contains(tokens_str, "has_many") {
        // Check for via attribute (many-to-many)
        if let Some(via) = extract_attr_value(tokens_str, "via") {
            relation_type = Some(RelationType::HasManyVia { via });
        } else {
            relation_type = Some(RelationType::HasMany);
        }
    }
    // Check for belongs_to

    if str_contains(tokens_str, "belongs_to") {
        relation_type = Some(RelationType::BelongsTo);
        // Extract from and to columns
        let from_col = extract_attr_value(tokens_str, "from");
        let to_col = extract_attr_value(tokens_str, "to");
        if let (Some(from), Some(to)) = (from_col, to_col) {
            foreign_key = Some(ForeignKeyInfo { from_column: from, to_column: to });
        }
    }
    // Check for self_ref

    if str_contains(tokens_str, "self_ref") {
        let via = extract_attr_value(tokens_str, "via");
        let reverse = str_contains(tokens_str, "reverse");
        relation_type = Some(RelationType::SelfRef { via, reverse });
    }
    (relation_type, foreign_key)
}

/// Parse sea_orm attributes to detect relation type and foreign key info
pub fn parse_sea_orm_relation_attrs(field: &FieldModel) -> (r: (
    Option<RelationType>,
    Option<ForeignKeyInfo>,
))
    ensures
        (opt_relation(r.0), opt_foreign_key(r.1)) == sea_orm_relation_attrs(field.attrs@),
{
    let attrs = &field.attrs;
    let n = attrs.len();
    let mut relation_type: Option<RelationType> = None;
    let mut foreign_key: Option<ForeignKeyInfo> = None;
    let mut i: usize = 0;
    while i < n
        invariant
            n == attrs@.len(),
            i <= n,
            (opt_relation(relation_type), opt_foreign_key(foreign_key)) == sea_orm_relation_attrs(
                attrs@.subrange(0, i as int),
            ),
        decreases n - i,
    {
        let attr = &attrs[i];
        assert(attrs@.subrange(0, i + 1).drop_last() =~= attrs@.subrange(0, i as int));
        let is_sea_orm = match &attr.path_ident {
            Some(id) => str_eq(id.as_str(), "sea_orm"),
            None => false,
        };
        if is_sea_orm {
            if let Some(tokens_str) = &attr.list_tokens {
                let (rt, fk) = apply_sea_orm_tokens_exec(
                    relation_type,
                    foreign_key,
                    tokens_str.as_str(),
                );
                relation_type = rt;
                foreign_key = fk;
            }
        }
        i = i + 1;
    }
    assert(attrs@.subrange(0, n as int) =~= attrs@);
    (relation_type, foreign_key)
}

// ---------------------------------------------------------------------------
// Detection
// ---------------------------------------------------------------------------

/// The relation a field holds, if any: named fields whose type is
/// `HasOne<E>`/`HasMany<E>` (the attributes may refine the relation type),
/// or whose attributes name a relation and whose type is `Option<...>`.
pub open spec fn relation_of_field(f: FieldModel) -> Option<RelationInfo> {
    match f.ident {
        None => None,
        Some(name) => {
            let found = sea_orm_relation_attrs(f.attrs@);
            match relation_of_type(f.ty) {
                Some((rt, path, model)) => Some(
                    RelationInfo {
                        field_name: name@,
                        relation_type: match found.0 {
                            Some(refined) => refined,
                            None => rt,
                        },
                        related_entity_path: path,
                        related_model_name: model,
                        foreign_key: found.1,
                    },
                ),
                None => match found.0 {
                    Some(rt) => match entity_of_option_type(f.ty) {
                        Some((_, path, model)) => Some(
                            RelationInfo {
                                field_name: name@,
                                relation_type: rt,
                                related_entity_path: path,
                                related_model_name: model,
                                foreign_key: found.1,
                            },
                        ),
                        None => None,
                    },
                    None => None,
                },
            }
        },
    }
}

/// Detects if a field is a SeaORM 2.0 relation field and extracts relation info
pub fn detect_relation_field(field: &FieldModel) -> (r: Option<RelationFieldInfo>)
    ensures
        match r {
            Some(info) => relation_of_field(*field) == Some(info@),
            None => relation_of_field(*field) is None,
        },
{
    let field_name = match &field.ident {
        Some(name) => name.clone(),
        None => return None,
    };
    // First check the field type for HasOne<E> or HasMany<E>
    if let Some((relation_type, entity_path, model_name)) = parse_relation_type(&field.ty) {
        // Check for sea_orm attributes to get more details
        let (refined_relation_type, foreign_key) = parse_sea_orm_relation_attrs(field);
        let relation_type = match refined_relation_type {
            Some(refined) => refined,
            None => relation_type,
        };
        return Some(
            RelationFieldInfo {
                field_name,
                relation_type,
                related_entity_path: entity_path,
                related_model_name: model_name,
                foreign_key,
            },
        );
    }
    // If no relation type found in field type, check attributes only

    let (attr_relation_type, foreign_key) = parse_sea_orm_relation_attrs(field);
    if let Some(relation_type) = attr_relation_type {
        // Try to extract entity from the type even if it's not HasOne/HasMany wrapper
        if let Some((_, entity_path, model_name)) = extract_entity_from_option_type(&field.ty) {
            return Some(
                RelationFieldInfo {
                    field_name,
                    relation_type,
                    related_entity_path: entity_path,
                    related_model_name: model_name,
                    foreign_key,
                },
            );
        }
    }
    None
}

/// Check if a field is a relation field (has HasOne, HasMany, or belongs_to)
pub fn is_relation_field(field: &FieldModel) -> (r: bool)
    ensures
        r == relation_of_field(*field) is Some,
{
    detect_relation_field(field).is_some()
}

// ---------------------------------------------------------------------------
// Which relations the generated models hold, and with which types
// ---------------------------------------------------------------------------

/// Relations that the Create model holds: one-to-one, one-to-many and
/// many-to-many. A belongs-to relation references an existing entity and is
/// not created through the model; self-references are not either.
pub open spec fn included_in_create(k: RelationKind) -> bool {
    k is HasOne || k is HasMany || k is HasManyVia
}

/// Relations that the Update model holds: all but self-references.
pub open spec fn included_in_update(k: RelationKind) -> bool {
    !(k is SelfRef)
}

/// Check if a field should be included in create model based on relation type
pub fn should_include_relation_in_create(info: &RelationFieldInfo) -> (r: bool)
    ensures
        r == included_in_create(info.relation_type@),
{
    match info.relation_type {
        RelationType::HasOne | RelationType::HasMany | RelationType::HasManyVia { .. } => true,
        RelationType::BelongsTo | RelationType::SelfRef { .. } => false,
    }
}

/// Check if a field should be included in update model based on relation type
pub fn should_include_relation_in_update(info: &RelationFieldInfo) -> (r: bool)
    ensures
        r == included_in_update(info.relation_type@),
{
    match info.relation_type {
        RelationType::HasOne
        | RelationType::HasMany
        | RelationType::BelongsTo
        | RelationType::HasManyVia { .. } => true,
        RelationType::SelfRef { .. } => false,
    }
}

/// How a relation field's type wraps the model it names.
#[derive(Debug, Clone, Copy, PartialEq, Eq, Structural)]
pub enum TypeWrapper {
    /// `Option<Box<M>>`
    OptionBox,
    /// `Option<Vec<M>>`
    OptionVec,
    /// `Option<Option<Box<M>>>`: outer `None` skips the field, inner `None` clears it
    OptionOptionBox,
}

/// The type of a relation field in a generated model.
#[derive(Debug, Clone, PartialEq, Eq)]
pub struct RelationFieldType<S> {
    pub wrapper: TypeWrapper,
    /// The name of the model that the type wraps.
    pub model_name: S,
}

impl View for RelationFieldType<String> {
    type V = RelationFieldType<Seq<char>>;

    open spec fn view(&self) -> RelationFieldType<Seq<char>> {
        RelationFieldType { wrapper: self.wrapper, model_name: self.model_name@ }
    }
}

/// The text of a relation field type, such as `Option<Box<ProfileCreate>>`.
pub open spec fn type_text(t: RelationFieldType<Seq<char>>) -> Seq<char> {
    match t.wrapper {
        TypeWrapper::OptionBox => "Option<Box<"@ + t.model_name + ">>"@,
        TypeWrapper::OptionVec => "Option<Vec<"@ + t.model_name + ">>"@,
        TypeWrapper::OptionOptionBox => "Option<Option<Box<"@ + t.model_name + ">>>"@,
    }
}

impl RelationFieldType<String> {
    /// The type as Rust source text.
    pub fn to_string(&self) -> (r: String)
        ensures
            r@ == type_text(self@),
    {
        let (open, close) = match self.wrapper {
            TypeWrapper::OptionBox => ("Option<Box<", ">>"),
            TypeWrapper::OptionVec => ("Option<Vec<", ">>"),
            TypeWrapper::OptionOptionBox => ("Option<Option<Box<", ">>>"),
        };
        String::from_str(open).concat(self.model_name.as_str()).concat(close)
    }
}

/// The Create model's type for a relation: a belongs-to relation holds the
/// existing related model (`Option<Box<M>>`), a one-to-one relation a nested
/// Create model (`Option<Box<MCreate>>`), and the others a list of nested
/// Create models (`Option<Vec<MCreate>>`).
pub open spec fn create_field_type(info: RelationInfo) -> RelationFieldType<Seq<char>> {
    match info.relation_type {
        RelationKind::BelongsTo => RelationFieldType {
            wrapper: TypeWrapper::OptionBox,
            model_name: info.related_model_name,
        },
        RelationKind::HasOne => RelationFieldType {
            wrapper: TypeWrapper::OptionBox,
            model_name: info.related_model_name + "Create"@,
        },
        _ => RelationFieldType {
            wrapper: TypeWrapper::OptionVec,
            model_name: info.related_model_name + "Create"@,
        },
    }
}

/// The Update model's type for a relation: a belongs-to relation holds the
/// related model (`Option<Option<Box<M>>>`), a one-to-one relation a nested
/// Update model (`Option<Option<Box<MUpdate>>>`), and the others a list of
/// nested Update models (`Option<Vec<MUpdate>>`).
pub open spec fn update_field_type(info: RelationInfo) -> RelationFieldType<Seq<char>> {
    match info.relation_type {
        RelationKind::BelongsTo => RelationFieldType {
            wrapper: TypeWrapper::OptionOptionBox,
            model_name: info.related_model_name,
        },
        RelationKind::HasOne => RelationFieldType {
            wrapper: TypeWrapper::OptionOptionBox,
            model_name: info.related_model_name + "Update"@,
        },
        _ => RelationFieldType {
            wrapper: TypeWrapper::OptionVec,
            model_name: info.related_model_name + "Update"@,
        },
    }
}

/// Generate the create model field type for a relation
pub fn generate_create_field_type(info: &RelationFieldInfo) -> (r: RelationFieldType<String>)
    ensures
        r@ == create_field_type(info@),
{
    match info.relation_type {
        RelationType::BelongsTo => RelationFieldType {
            wrapper: TypeWrapper::OptionBox,
            model_name: info.related_model_name.clone(),
        },
        RelationType::HasOne => RelationFieldType {
            wrapper: TypeWrapper::OptionBox,
            model_name: info.related_model_name.clone().concat("Create"),
        },
        RelationType::HasMany
        | RelationType::HasManyVia { .. }
        | RelationType::SelfRef { .. } => RelationFieldType {
            wrapper: TypeWrapper::OptionVec,
            model_name: info.related_model_name.clone().concat("Create"),
        },
    }
}

/// Generate the update model field type for a relation
pub fn generate_update_field_type(info: &RelationFieldInfo) -> (r: RelationFieldType<String>)
    ensures
        r@ == update_field_type(info@),
{
    match info.relation_type {
        RelationType::BelongsTo => RelationFieldType {
            wrapper: TypeWrapper::OptionOptionBox,
            model_name: info.related_model_name.clone(),
        },
        RelationType::HasOne => RelationFieldType {
            wrapper: TypeWrapper::OptionOptionBox,
            model_name: info.related_model_name.clone().concat("Update"),
        },
        RelationType::HasMany
        | RelationType::HasManyVia { .. }
        | RelationType::SelfRef { .. } => RelationFieldType {
            wrapper: TypeWrapper::OptionVec,
            model_name: info.related_model_name.clone().concat("Update"),
        },
    }
}

} // verus!
