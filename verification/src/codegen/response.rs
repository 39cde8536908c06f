//! The Response model returned from GET endpoints: its fields, and their
//! values when built from a model.
use vstd::prelude::*;

use crate::codegen::flag_or;
use crate::model::{AttrModel, FieldModel};
use crate::relations::{detect_relation_field, opt_chars, relation_of_field, RelationKind, RelationType};
use crate::text::{
    chars_of, cleaned_entity_path, contains, remove_spaces, str_contains, str_eq,
    trim_entity_path,
};

verus! {

// ---------------------------------------------------------------------------
// Module paths of related entities
// ---------------------------------------------------------------------------

/// Whether `syn::parse_str::<syn::Path>` accepts `text`.
pub uninterp spec fn parses_as_path(text: Seq<char>) -> bool;

/// Calls `syn::parse_str::<syn::Path>` on `text` and reports whether it
/// succeeded. The contract names the outcome `parses_as_path(text)`, a
/// function of the text alone; which texts syn's path grammar accepts is not
/// restated.
#[verifier::external_body]
fn parse_path_succeeds(text: &str) -> (r: bool)
    ensures
        r == parses_as_path(text@),
{
    syn::parse_str::<syn::Path>(text).is_ok()
}

/// `super :: fruit :: Entity` with spaces removed, trailing `Entity` and `::`
/// removed, and surrounding white space removed: `super::fruit`.
pub fn clean_entity_path(entity_path: &str) -> (r: String)
    ensures
        r@ == cleaned_entity_path(entity_path@),
{
    let without = remove_spaces(entity_path);
    let v = chars_of(without.as_str());
    let (lo, hi) = trim_entity_path(&v);
    String::from_str(without.as_str().substring_char(lo, hi))
}

/// The module path, given the cleaned text and whether it parses as a path.
pub open spec fn module_path_from(cleaned: Seq<char>, parses: bool) -> Option<Seq<char>> {
    if cleaned.len() == 0 {
        None
    } else if parses {
        Some(cleaned)
    } else {
        None
    }
}

/// The module path of an entity path's token text: the cleaned text, when it
/// is not empty and parses as a path.
pub open spec fn module_path_of(entity_path: Seq<char>) -> Option<Seq<char>> {
    let cleaned = cleaned_entity_path(entity_path);
    module_path_from(cleaned, parses_as_path(cleaned))
}

/// The module path, given the cleaned entity path text and whether it parses
/// as a path.
pub fn module_path_from_cleaned(cleaned: &str, parses: bool) -> (r: Option<String>)
    ensures
        opt_chars(r) == module_path_from(cleaned@, parses),
{
    if cleaned.unicode_len() == 0 {
        None
    } else if parses {
        Some(String::from_str(cleaned))
    } else {
        None
    }
}

/// Extract module path from entity path like `super::fruit::Entity` → `super::fruit`
pub fn extract_module_path_from_entity(entity_path: &str) -> (r: Option<String>)
    ensures
        opt_chars(r) == module_path_of(entity_path@),
{
    let cleaned = clean_entity_path(entity_path);
    if cleaned.as_str().unicode_len() == 0 {
        return None;
    }
    let parses = parse_path_succeeds(cleaned.as_str());
    module_path_from_cleaned(cleaned.as_str(), parses)
}

// ---------------------------------------------------------------------------
// Field values
// ---------------------------------------------------------------------------

/// Many-valued relations: one-to-many, many-to-many and self-references.
pub open spec fn many_valued(k: RelationKind) -> bool {
    k is HasMany || k is HasManyVia || k is SelfRef
}

fn is_many_valued(rt: &RelationType) -> (r: bool)
    ensures
        r == many_valued(rt@),
{
    match rt {
        RelationType::HasMany | RelationType::HasManyVia { .. } | RelationType::SelfRef { .. } => {
            true
        },
        RelationType::BelongsTo | RelationType::HasOne => false,
    }
}

/// How a Response field's value is built from a model.
#[derive(Debug, Clone, PartialEq, Eq)]
pub enum ResponseAssignment<S> {
    /// A many-valued relation starts empty: `ident: Vec::new()`
    EmptyList { ident: Option<S> },
    /// A single-valued relation starts unset: `ident: None`
    Unset { ident: Option<S> },
    /// A regular field is copied: `ident: model.ident`
    Copy { ident: Option<S> },
}

impl View for ResponseAssignment<String> {
    type V = ResponseAssignment<Seq<char>>;

    open spec fn view(&self) -> ResponseAssignment<Seq<char>> {
        match self {
            ResponseAssignment::EmptyList { ident } => ResponseAssignment::EmptyList {
                ident: opt_chars(*ident),
            },
            ResponseAssignment::Unset { ident } => ResponseAssignment::Unset {
                ident: opt_chars(*ident),
            },
            ResponseAssignment::Copy { ident } => ResponseAssignment::Copy {
                ident: opt_chars(*ident),
            },
        }
    }
}

/// How the Response field for `f` is built.
pub open spec fn response_assignment_of(f: FieldModel) -> ResponseAssignment<Seq<char>> {
    match relation_of_field(f) {
        Some(info) => if many_valued(info.relation_type) {
            ResponseAssignment::EmptyList { ident: opt_chars(f.ident) }
        } else {
            ResponseAssignment::Unset { ident: opt_chars(f.ident) }
        },
        None => ResponseAssignment::Copy { ident: opt_chars(f.ident) },
    }
}

/// Whether a field appears in single-item responses (`one_model`, default yes).
pub open spec fn in_one_model(f: FieldModel) -> bool {
    flag_or(f, "one_model"@, true)
}

/// The assignments of the Response fields, in order.
pub open spec fn response_assignments(fs: Seq<FieldModel>) -> Seq<ResponseAssignment<Seq<char>>>
    decreases fs.len(),
{
    if fs.len() == 0 {
        seq![]
    } else {
        let prev = response_assignments(fs.drop_last());
        if in_one_model(fs.last()) {
            prev.push(response_assignment_of(fs.last()))
        } else {
            prev
        }
    }
}

fn one_model_flag(field: &FieldModel) -> (r: bool)
    ensures
        r == in_one_model(*field),
{
    match field.crudcrate_bool("one_model") {
        Some(b) => b,
        None => true,
    }
}

/// Generate field assignment expressions for converting API struct to Response.
pub fn generate_response_from_assignments(fields: &Vec<FieldModel>) -> (r: Vec<
    ResponseAssignment<String>,
>)
    ensures
        r@.map_values(|c: ResponseAssignment<String>| c@) == response_assignments(fields@),
{
    let mut out: Vec<ResponseAssignment<String>> = Vec::new();
    let n = fields.len();
    let mut i: usize = 0;
    while i < n
        invariant
            n == fields@.len(),
            i <= n,
            out@.map_values(|c: ResponseAssignment<String>| c@) == response_assignments(
                fields@.subrange(0, i as int),
            ),
        decreases n - i,
    {
        let field = &fields[i];
        assert(fields@.subrange(0, i + 1).drop_last() =~= fields@.subrange(0, i as int));
        if one_model_flag(field) {
            let ident = field.ident.clone();
            let item = match detect_relation_field(field) {
                Some(relation_info) => if is_many_valued(&relation_info.relation_type) {
                    ResponseAssignment::EmptyList { ident }
                } else {
                    ResponseAssignment::Unset { ident }
                },
                None => ResponseAssignment::Copy { ident },
            };
            let ghost prev = out@;
            out.push(item);
            assert(out@.map_values(|c: ResponseAssignment<String>| c@) =~= prev.map_values(
                |c: ResponseAssignment<String>| c@,
            ).push(item@));
        }
        i = i + 1;
    }
    assert(fields@.subrange(0, n as int) =~= fields@);
    out
}

// ---------------------------------------------------------------------------
// Field definitions
// ---------------------------------------------------------------------------

/// A field of the Response model.
#[derive(Debug, Clone, PartialEq, Eq)]
pub enum ResponseStructField<S, L> {
    /// A relation field, typed `Vec<path::Model>` when many-valued and
    /// `Option<path::Model>` otherwise (`Model` alone without a module path),
    /// with `#[serde(default, skip_serializing_if = "Vec::is_empty")]` or
    /// `"Option::is_none"` and, with `schema_object`, `#[schema(value_type = Object)]`.
    Relation { ident: Option<S>, many: bool, entity_module: Option<S>, schema_object: bool },
    /// A regular field `pub ident: ty` that keeps the attributes at the
    /// listed positions and, with `no_recursion`, gets `#[schema(no_recursion)]`.
    Regular { ident: Option<S>, ty: S, kept_attrs: L, no_recursion: bool },
}

impl View for ResponseStructField<String, Vec<usize>> {
    type V = ResponseStructField<Seq<char>, Seq<usize>>;

    open spec fn view(&self) -> ResponseStructField<Seq<char>, Seq<usize>> {
        match self {
            ResponseStructField::Relation { ident, many, entity_module, schema_object } => {
                ResponseStructField::Relation {
                    ident: opt_chars(*ident),
                    many: *many,
                    entity_module: opt_chars(*entity_module),
                    schema_object: *schema_object,
                }
            },
            ResponseStructField::Regular { ident, ty, kept_attrs, no_recursion } => {
                ResponseStructField::Regular {
                    ident: opt_chars(*ident),
                    ty: ty@,
                    kept_attrs: kept_attrs@,
                    no_recursion: *no_recursion,
                }
            },
        }
    }
}

/// An attribute that a Response field keeps: all but `#[crudcrate(...)]` and
/// `#[sea_orm(...)]`.
pub open spec fn kept_attr(a: AttrModel) -> bool {
    match a.path_ident {
        Some(id) => id@ != "crudcrate"@ && id@ != "sea_orm"@,
        None => true,
    }
}

/// The positions of the attributes that a Response field keeps, in order.
pub open spec fn kept_attr_positions(attrs: Seq<AttrModel>) -> Seq<usize>
    decreases attrs.len(),
{
    if attrs.len() == 0 {
        seq![]
    } else {
        let prev = kept_attr_positions(attrs.drop_last());
        if kept_attr(attrs.last()) {
            prev.push((attrs.len() - 1) as usize)
        } else {
            prev
        }
    }
}

fn kept_attrs_of(attrs: &Vec<AttrModel>) -> (r: Vec<usize>)
    ensures
        r@ == kept_attr_positions(attrs@),
{
    let mut out: Vec<usize> = Vec::new();
    let n = attrs.len();
    let mut i: usize = 0;
    while i < n
        invariant
            n == attrs@.len(),
            i <= n,
            out@ == kept_attr_positions(attrs@.subrange(0, i as int)),
        decreases n - i,
    {
        assert(attrs@.subrange(0, i + 1).drop_last() =~= attrs@.subrange(0, i as int));
        let kept = match &attrs[i].path_ident {
            Some(id) => !str_eq(id.as_str(), "crudcrate") && !str_eq(id.as_str(), "sea_orm"),
            None => true,
        };
        if kept {
            out.push(i);
        }
        i = i + 1;
    }
    assert(attrs@.subrange(0, n as int) =~= attrs@);
    out
}

/// The Response model's field for `f`; `api_struct_name` is the name of the
/// API struct, whose appearance in a field's type marks it self-referencing.
pub open spec fn response_struct_field_of(
    f: FieldModel,
    api_struct_name: Seq<char>,
    skip_utoipa: bool,
) -> ResponseStructField<Seq<char>, Seq<usize>> {
    match relation_of_field(f) {
        Some(info) => ResponseStructField::Relation {
            ident: opt_chars(f.ident),
            many: many_valued(info.relation_type),
            entity_module: module_path_of(info.related_entity_path),
            schema_object: !skip_utoipa,
        },
        None => ResponseStructField::Regular {
            ident: opt_chars(f.ident),
            ty: f.ty.tokens@,
            kept_attrs: kept_attr_positions(f.attrs@),
            no_recursion: !skip_utoipa && (contains(f.ty.tokens@, api_struct_name)
                || f.join is Some),
        },
    }
}

/// The Response model's fields, in order.
pub open spec fn response_struct_fields(
    fs: Seq<FieldModel>,
    api_struct_name: Seq<char>,
    skip_utoipa: bool,
) -> Seq<ResponseStructField<Seq<char>, Seq<usize>>>
    decreases fs.len(),
{
    if fs.len() == 0 {
        seq![]
    } else {
        let prev = response_struct_fields(fs.drop_last(), api_struct_name, skip_utoipa);
        if in_one_model(fs.last()) {
            prev.push(response_struct_field_of(fs.last(), api_struct_name, skip_utoipa))
        } else {
            prev
        }
    }
}

fn response_struct_field(field: &FieldModel, api_struct_name: &str, skip_utoipa: bool) -> (r:
    ResponseStructField<String, Vec<usize>>)
    ensures
        r@ == response_struct_field_of(*field, api_struct_name@, skip_utoipa),
{
    // Check if this is a SeaORM 2.0 relation field
    if let Some(relation_info) = detect_relation_field(field) {
        let entity_module = extract_module_path_from_entity(
            relation_info.related_entity_path.as_str(),
        );
        return ResponseStructField::Relation {
            ident: field.ident.clone(),
            many: is_many_valued(&relation_info.relation_type),
            entity_module,
            schema_object: !skip_utoipa,
        };
    }
    // Copy non-crudcrate attributes to the response field

    let kept_attrs = kept_attrs_of(&field.attrs);
    // Check if this is a self-referencing or join field
    let is_self_referencing = str_contains(field.ty.tokens.as_str(), api_struct_name);
    let is_join_field = field.join.is_some();
    ResponseStructField::Regular {
        ident: field.ident.clone(),
        ty: field.ty.tokens.clone(),
        kept_attrs,
        no_recursion: !skip_utoipa && (is_self_referencing || is_join_field),
    }
}

/// Generate field definitions for Response struct.
pub fn generate_response_struct_fields(
    fields: &Vec<FieldModel>,
    api_struct_name: &str,
    skip_utoipa: bool,
) -> (r: Vec<ResponseStructField<String, Vec<usize>>>)
    ensures
        r@.map_values(|c: ResponseStructField<String, Vec<usize>>| c@) == response_struct_fields(
            fields@,
            api_struct_name@,
            skip_utoipa,
        ),
{
    let mut out: Vec<ResponseStructField<String, Vec<usize>>> = Vec::new();
    let n = fields.len();
    let mut i: usize = 0;
    while i < n
        invariant
            n == fields@.len(),
            i <= n,
            out@.map_values(|c: ResponseStructField<String, Vec<usize>>| c@)
                == response_struct_fields(fields@.subrange(0, i as int), api_struct_name@, skip_utoipa),
        decreases n - i,
    {
        let field = &fields[i];
        assert(fields@.subrange(0, i + 1).drop_last() =~= fields@.subrange(0, i as int));
        if one_model_flag(field) {
            let item = response_struct_field(field, api_struct_name, skip_utoipa);
            let ghost prev = out@;
            out.push(item);
            assert(out@.map_values(|c: ResponseStructField<String, Vec<usize>>| c@)
                =~= prev.map_values(|c: ResponseStructField<String, Vec<usize>>| c@).push(
                item@,
            ));
        }
        i = i + 1;
    }
    assert(fields@.subrange(0, n as int) =~= fields@);
    out
}

} // verus!
