//! Properties that hold across the library's functions.
use vstd::prelude::*;

use crate::codegen::create::{
    create_relation_conversions, create_relation_fields, RelationConversion,
};
use crate::codegen::included_in_model;
use crate::codegen::response::{
    response_assignments, response_struct_fields, ResponseAssignment, ResponseStructField,
};
use crate::codegen::update::{update_relation_fields, update_relation_merges, RelationMerge};
use crate::model::{last_segment, FieldModel};
use crate::relations::{
    create_field_type, included_in_create, included_in_update, model_name_of, relation_of_field,
    sea_orm_relation_attrs, update_field_type, RelationFieldInfo, RelationInfo, RelationKind,
    TypeWrapper,
};
use crate::text::{
    attr_value, double_quote_pattern, lemma_find_from_first, matches_at, pascal_case, uppercase_of, all_ascii, pascal_case_ascii, underscore_count,
    lemma_pascal_case_ascii_shape, lemma_pascal_case_ascii_fixed,
};

verus! {

/// A named field whose type is `HasOne<E>` or `HasMany<E>` is a relation
/// field, whatever its attributes say; its related model is named after `E`,
/// and without a `#[sea_orm(...)]` relation attribute its relation type is
/// the one its type names.
pub proof fn relation_wrapper_types_are_detected(f: FieldModel)
    requires
        f.ident is Some,
        last_segment(f.ty) matches Some(seg) && (seg.ident@ == "HasOne"@ || seg.ident@
            == "HasMany"@) && seg.first_type_arg is Some,
    ensures
        relation_of_field(f) matches Some(info) && {
            let seg = last_segment(f.ty)->0;
            let entity = seg.first_type_arg->0;
            &&& info.related_model_name == model_name_of(*entity)
            &&& info.related_entity_path == entity.tokens@
            &&& sea_orm_relation_attrs(f.attrs@).0 is None ==> (if seg.ident@ == "HasOne"@ {
                info.relation_type is HasOne
            } else {
                info.relation_type is HasMany
            })
        },
{
}

/// A field without a name is never a relation field.
pub proof fn unnamed_fields_are_not_relations(f: FieldModel)
    requires
        f.ident is None,
    ensures
        relation_of_field(f) is None,
{
}

/// Relation fields stay out of the Create, Update and List models' regular
/// fields: the relation-specific generators add them.
pub proof fn relation_fields_stay_out_of_model_fields(f: FieldModel)
    requires
        relation_of_field(f) is Some,
    ensures
        !included_in_model(f, "create_model"@),
        !included_in_model(f, "update_model"@),
        !included_in_model(f, "list_model"@),
{
}

/// Join fields stay out of the Create and Update models.
pub proof fn join_fields_stay_out_of_create_and_update(f: FieldModel)
    requires
        f.join is Some,
    ensures
        !included_in_model(f, "create_model"@),
        !included_in_model(f, "update_model"@),
{
}

/// Every relation that the Create model holds, the Update model holds too.
pub proof fn create_relations_are_update_relations(k: RelationKind)
    requires
        included_in_create(k),
    ensures
        included_in_update(k),
{
}

/// A relation's Create and Update types agree: both are lists or neither;
/// a single relation is `Option<Box<..>>` in the Create model and
/// `Option<Option<Box<..>>>` in the Update model; and apart from a
/// belongs-to relation (which names the related model itself) they name the
/// related model's Create and Update models.
pub proof fn create_and_update_types_agree(info: RelationInfo)
    ensures
        (create_field_type(info).wrapper == TypeWrapper::OptionVec) <==> (update_field_type(
            info,
        ).wrapper == TypeWrapper::OptionVec),
        create_field_type(info).wrapper == TypeWrapper::OptionBox <==> update_field_type(
            info,
        ).wrapper == TypeWrapper::OptionOptionBox,
        info.relation_type is BelongsTo ==> create_field_type(info).model_name
            == info.related_model_name && update_field_type(info).model_name
            == info.related_model_name,
        !(info.relation_type is BelongsTo) ==> create_field_type(info).model_name
            == info.related_model_name + "Create"@ && update_field_type(info).model_name
            == info.related_model_name + "Update"@,
{
}

/// The Response model's fields and the assignments that build them describe
/// the same fields in the same order: a relation field is a list exactly
/// when it starts as an empty list, a single relation starts unset, and a
/// regular field is copied from the model.
pub proof fn response_fields_match_assignments(
    fs: Seq<FieldModel>,
    api_struct_name: Seq<char>,
    skip_utoipa: bool,
)
    ensures
        response_struct_fields(fs, api_struct_name, skip_utoipa).len()
            == response_assignments(fs).len(),
        forall|i: int|
            0 <= i < response_assignments(fs).len() ==> {
                let field = #[trigger] response_struct_fields(fs, api_struct_name, skip_utoipa)[i];
                let value = response_assignments(fs)[i];
                match field {
                    ResponseStructField::Relation { ident, many, .. } => if many {
                        value == ResponseAssignment::EmptyList { ident }
                    } else {
                        value == ResponseAssignment::Unset { ident }
                    },
                    ResponseStructField::Regular { ident, .. } => value
                        == ResponseAssignment::Copy { ident },
                }
            },
    decreases fs.len(),
{
    if fs.len() > 0 {
        response_fields_match_assignments(fs.drop_last(), api_struct_name, skip_utoipa);
    }
}

/// The Create model's relation fields and their conversions describe the
/// same relations in the same order: a list-typed field is appended, a
/// boxed one is set from its nested value.
pub proof fn create_relation_fields_match_conversions(infos: Seq<RelationFieldInfo>)
    ensures
        create_relation_fields(infos).len() == create_relation_conversions(infos).len(),
        forall|i: int|
            0 <= i < create_relation_conversions(infos).len() ==> {
                let field = #[trigger] create_relation_fields(infos)[i];
                let conversion = create_relation_conversions(infos)[i];
                &&& field.ty.wrapper == TypeWrapper::OptionVec ==> conversion
                    == RelationConversion::HasManyAppend { ident: field.ident }
                &&& field.ty.wrapper == TypeWrapper::OptionBox ==> conversion
                    == RelationConversion::HasOneSet { ident: field.ident }
            },
    decreases infos.len(),
{
    if infos.len() > 0 {
        create_relation_fields_match_conversions(infos.drop_last());
    }
}

/// The Update model's relation fields and their merges describe the same
/// relations in the same order: a list-typed field replaces the list, and
/// only list-typed fields do.
pub proof fn update_relation_fields_match_merges(infos: Seq<RelationFieldInfo>)
    ensures
        update_relation_fields(infos).len() == update_relation_merges(infos).len(),
        forall|i: int|
            0 <= i < update_relation_merges(infos).len() ==> {
                let field = #[trigger] update_relation_fields(infos)[i];
                let merge = update_relation_merges(infos)[i];
                (field.ty.wrapper == TypeWrapper::OptionVec) <==> merge
                    == RelationMerge::HasManyReplace { ident: field.ident }
            },
    decreases infos.len(),
{
    if infos.len() > 0 {
        update_relation_fields_match_merges(infos.drop_last());
    }
}

/// An attribute text that starts with `name = "value"` gives back `value`,
/// whatever follows, when `value` holds no double quote.
pub proof fn attr_value_reads_back_written_value(
    name: Seq<char>,
    value: Seq<char>,
    rest: Seq<char>,
)
    requires
        forall|i: int| 0 <= i < value.len() ==> value[i] != '"',
    ensures
        attr_value(double_quote_pattern(name) + value + seq!['"'] + rest, name) == Some(value),
{
    let pat = double_quote_pattern(name);
    let t = pat + value + seq!['"'] + rest;
    let q = seq!['"'];
    assert(t.subrange(0, pat.len() as int) =~= pat);
    lemma_find_from_first(t, pat, 0, 0);
    let e: int = pat.len() + value.len() as int;
    assert(t.subrange(e, e + 1) =~= q);
    assert forall|j: int| pat.len() <= j < e implies !#[trigger] matches_at(t, q, j) by {
        assert(t[j] == value[j - pat.len()]);
        assert(t.subrange(j, j + 1)[0] == t[j]);
    }
    lemma_find_from_first(t, q, pat.len() as int, e);
    assert(t.subrange(pat.len() as int, e) =~= value);
}

/// snake_case to PascalCase converts word by word: the text on either side
/// of an underscore is converted on its own and the results are joined.
pub proof fn pascal_case_joins_words(a: Seq<char>, b: Seq<char>)
    ensures
        pascal_case(a + seq!['_'] + b) == pascal_case(a) + pascal_case(b),
    decreases b.len(),
{
    let s = a + seq!['_'] + b;
    if b.len() == 0 {
        assert(s.drop_last() =~= a);
        assert(pascal_case(b) =~= seq![]);
        assert(pascal_case(a) + pascal_case(b) =~= pascal_case(a));
    } else {
        let b0 = b.drop_last();
        pascal_case_joins_words(a, b0);
        assert(s.drop_last() =~= a + seq!['_'] + b0);
        assert(s.last() == b.last());
        if b0.len() > 0 {
            assert(s.drop_last().last() == b0.last());
        }
        let c = b.last();
        if c == '_' {
        } else if b0.len() == 0 || b0.last() == '_' {
            assert(pascal_case(a) + pascal_case(b) =~= pascal_case(a) + pascal_case(b0)
                + uppercase_of(c));
        } else {
            assert(pascal_case(a) + pascal_case(b) =~= (pascal_case(a) + pascal_case(b0)).push(c));
        }
    }
}

/// On ASCII text, snake_case to PascalCase keeps the text ASCII, removes
/// exactly the underscores (the result is as long as the text less its
/// underscores), and converting the result again changes nothing.
pub proof fn pascal_case_on_ascii_is_idempotent(s: Seq<char>)
    requires
        all_ascii(s),
    ensures
        all_ascii(pascal_case_ascii(s)),
        pascal_case_ascii(s).len() == s.len() - underscore_count(s),
        pascal_case_ascii(pascal_case_ascii(s)) == pascal_case_ascii(s),
{
    lemma_pascal_case_ascii_shape(s);
    lemma_pascal_case_ascii_fixed(pascal_case_ascii(s));
}

} // verus!
