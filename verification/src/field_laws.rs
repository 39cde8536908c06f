//! What detection and model planning do to a field, stated over the field's
//! own parts: its attribute texts, its type's segments and its settings.
use vstd::prelude::*;

use crate::codegen::create::{
    create_conversion_of, create_struct_field_of, relation_conversion_of, CreateConversion,
    CreateStructField, RelationConversion,
};
use crate::codegen::included_in_model;
use crate::codegen::response::{
    module_path_of, parses_as_path, response_assignment_of, response_struct_field_of, ResponseAssignment,
    ResponseStructField,
};
use crate::codegen::update::{relation_merge_of, update_struct_field_of, RelationMerge, UpdateStructField};
use crate::model::{CrudcrateFlag, flag_value, last_segment, AttrModel, FieldModel, PathSegmentModel};
use crate::relations::{
    create_field_type, entity_index_from, included_in_create, included_in_update, model_name_of,
    opt_chars, relation_of_field, sea_orm_relation_attrs, update_field_type, ForeignKey,
    RelationInfo, RelationKind, TypeWrapper,
};
use crate::text::{
    ascii_upper, attr_value, contains, find_from, lemma_find_from, matches_at, pascal_case,
    pascal_case_ascii, quoted_value, single_quote_pattern, double_quote_pattern, uppercase_of,
    lemma_find_from_first, cleaned_entity_path, ends_with, is_white_space, trim_end_matches,
    trim_end_ws, trim_start_ws, without_spaces,
};

verus! {

/// The attribute is `#[sea_orm(...)]` whose token text is `t`.
pub open spec fn is_sea_orm_list(a: AttrModel, t: Seq<char>) -> bool {
    &&& a.path_ident matches Some(id) && id@ == "sea_orm"@
    &&& a.list_tokens matches Some(l) && l@ == t
}

// ---------------------------------------------------------------------------
// Relation attributes
// ---------------------------------------------------------------------------

/// An attribute that is not a `#[sea_orm(...)]` list leaves the relation
/// read from the attributes before it unchanged.
pub proof fn other_attributes_change_nothing(prefix: Seq<AttrModel>, a: AttrModel)
    requires
        !(a.path_ident matches Some(id) && id@ == "sea_orm"@) || a.list_tokens is None,
    ensures
        sea_orm_relation_attrs(prefix.push(a)) == sea_orm_relation_attrs(prefix),
{
    assert(prefix.push(a).drop_last() =~= prefix);
}

/// A last `#[sea_orm(...)]` attribute naming `has_one` and no other relation
/// makes the relation one-to-one, keeping the foreign key found before.
pub proof fn has_one_attribute_gives_has_one(prefix: Seq<AttrModel>, a: AttrModel, t: Seq<char>)
    requires
        is_sea_orm_list(a, t),
        contains(t, "has_one"@),
        !contains(t, "has_many"@),
        !contains(t, "belongs_to"@),
        !contains(t, "self_ref"@),
    ensures
        sea_orm_relation_attrs(prefix.push(a)).0 == Some(RelationKind::HasOne),
        sea_orm_relation_attrs(prefix.push(a)).1 == sea_orm_relation_attrs(prefix).1,
{
    assert(prefix.push(a).drop_last() =~= prefix);
}

/// A last `#[sea_orm(...)]` attribute naming `has_many` (and neither
/// `belongs_to` nor `self_ref`) makes the relation many-to-many through the
/// `via` table when one is written, else one-to-many.
pub proof fn has_many_attribute_gives_has_many(prefix: Seq<AttrModel>, a: AttrModel, t: Seq<char>)
    requires
        is_sea_orm_list(a, t),
        contains(t, "has_many"@),
        !contains(t, "belongs_to"@),
        !contains(t, "self_ref"@),
    ensures
        attr_value(t, "via"@) matches Some(via) ==> sea_orm_relation_attrs(prefix.push(a)).0
            == Some(RelationKind::HasManyVia { via }),
        attr_value(t, "via"@) is None ==> sea_orm_relation_attrs(prefix.push(a)).0 == Some(
            RelationKind::HasMany,
        ),
{
    assert(prefix.push(a).drop_last() =~= prefix);
}

/// A last `#[sea_orm(...)]` attribute naming `belongs_to` (and not
/// `self_ref`) makes the relation belongs-to; when it writes both `from` and
/// `to` columns they are the foreign key, else the one found before stays.
pub proof fn belongs_to_attribute_gives_belongs_to(
    prefix: Seq<AttrModel>,
    a: AttrModel,
    t: Seq<char>,
)
    requires
        is_sea_orm_list(a, t),
        contains(t, "belongs_to"@),
        !contains(t, "self_ref"@),
    ensures
        sea_orm_relation_attrs(prefix.push(a)).0 == Some(RelationKind::BelongsTo),
        attr_value(t, "from"@) is Some && attr_value(t, "to"@) is Some ==> sea_orm_relation_attrs(
            prefix.push(a),
        ).1 == Some(
            ForeignKey {
                from_column: attr_value(t, "from"@)->0,
                to_column: attr_value(t, "to"@)->0,
            },
        ),
        attr_value(t, "from"@) is None || attr_value(t, "to"@) is None ==> sea_orm_relation_attrs(
            prefix.push(a),
        ).1 == sea_orm_relation_attrs(prefix).1,
{
    assert(prefix.push(a).drop_last() =~= prefix);
}

/// A last `#[sea_orm(...)]` attribute naming `self_ref` makes the relation
/// self-referencing, through its `via` table when one is written, and
/// reversed exactly when the text says `reverse`.
pub proof fn self_ref_attribute_gives_self_ref(prefix: Seq<AttrModel>, a: AttrModel, t: Seq<char>)
    requires
        is_sea_orm_list(a, t),
        contains(t, "self_ref"@),
    ensures
        sea_orm_relation_attrs(prefix.push(a)).0 matches Some(RelationKind::SelfRef { via, reverse })
            && via == attr_value(t, "via"@) && (reverse <==> contains(t, "reverse"@)),
        !contains(t, "reverse"@) ==> sea_orm_relation_attrs(prefix.push(a)).0 matches Some(
            RelationKind::SelfRef { reverse: false, .. },
        ),
{
    assert(prefix.push(a).drop_last() =~= prefix);
}

/// For a named field typed `HasOne<E>` or `HasMany<E>`, a relation that its
/// attributes name is the relation detected (so `belongs_to` on a `HasOne<E>`
/// field gives a belongs-to relation), and the foreign key is the attributes'.
pub proof fn attribute_relation_overrides_wrapper_type(f: FieldModel)
    requires
        f.ident is Some,
        last_segment(f.ty) matches Some(seg) && (seg.ident@ == "HasOne"@ || seg.ident@
            == "HasMany"@) && seg.first_type_arg is Some,
        sea_orm_relation_attrs(f.attrs@).0 is Some,
    ensures
        relation_of_field(f) matches Some(info) && info.relation_type == sea_orm_relation_attrs(
            f.attrs@,
        ).0->0 && info.foreign_key == sea_orm_relation_attrs(f.attrs@).1 && info.field_name
            == f.ident->0@,
{
}

/// A named field `pub f: HasOne<E>` with one `#[sea_orm(belongs_to ...)]`
/// attribute is a belongs-to relation to `E`, with the attribute's columns as
/// its foreign key when both are written.
pub proof fn belongs_to_on_has_one_field(f: FieldModel, t: Seq<char>)
    requires
        f.ident is Some,
        last_segment(f.ty) matches Some(seg) && seg.ident@ == "HasOne"@ && seg.first_type_arg is Some,
        f.attrs@.len() == 1,
        is_sea_orm_list(f.attrs@[0], t),
        contains(t, "belongs_to"@),
        !contains(t, "self_ref"@),
    ensures
        relation_of_field(f) matches Some(info) && info.relation_type == RelationKind::BelongsTo,
        attr_value(t, "from"@) is Some && attr_value(t, "to"@) is Some ==> relation_of_field(
            f,
        )->0.foreign_key == Some(
            ForeignKey {
                from_column: attr_value(t, "from"@)->0,
                to_column: attr_value(t, "to"@)->0,
            },
        ),
{
    let attrs = f.attrs@;
    assert(attrs =~= Seq::<AttrModel>::empty().push(attrs[0]));
    belongs_to_attribute_gives_belongs_to(Seq::empty(), attrs[0], t);
    attribute_relation_overrides_wrapper_type(f);
}

// ---------------------------------------------------------------------------
// Model names
// ---------------------------------------------------------------------------

proof fn lemma_entity_index_last(segs: Seq<PathSegmentModel>, i: int)
    requires
        1 <= i <= segs.len() - 1,
        segs.last().ident@ == "Entity"@,
        forall|j: int| i <= j < segs.len() - 1 ==> (#[trigger] segs[j]).ident@ != "Entity"@,
    ensures
        entity_index_from(segs, i) == Some(segs.len() - 1),
    decreases segs.len() - i,
{
    if i < segs.len() - 1 {
        lemma_entity_index_last(segs, i + 1);
    }
}

/// The model name of `...::module::Entity`, with no other `Entity` segment
/// after the first, is `module` in PascalCase.
pub proof fn model_name_from_module_before_entity(ty: crate::model::TypeModel)
    requires
        ty.path matches Some(segs) && segs@.len() >= 2 && segs@.last().ident@ == "Entity"@
            && forall|j: int| 1 <= j < segs@.len() - 1 ==> (#[trigger] segs@[j]).ident@
            != "Entity"@,
    ensures
        model_name_of(ty) == pascal_case(ty.path->0@[ty.path->0@.len() - 2].ident@),
{
    lemma_entity_index_last(ty.path->0@, 1);
}

// ---------------------------------------------------------------------------
// Which models hold a field
// ---------------------------------------------------------------------------

/// A field that is neither a relation nor a join field is in a model exactly
/// when its own setting for that model does not exclude it, for every model.
pub proof fn own_setting_decides_for_regular_fields(f: FieldModel, model_type: Seq<char>)
    requires
        relation_of_field(f) is None,
        f.join is None,
    ensures
        included_in_model(f, model_type) == (flag_value(f.crudcrate_flags@, model_type) != Some(
            false,
        )),
{
}

/// A join field is never in the Create or Update model, and is in the List
/// model exactly when it is loaded for lists and its own setting does not
/// exclude it.
pub proof fn join_fields_in_models(f: FieldModel)
    requires
        relation_of_field(f) is None,
        f.join is Some,
    ensures
        !included_in_model(f, "create_model"@),
        !included_in_model(f, "update_model"@),
        included_in_model(f, "list_model"@) == (f.join->0.on_all && flag_value(
            f.crudcrate_flags@,
            "list_model"@,
        ) != Some(false)),
{
    reveal_strlit("list_model");
    reveal_strlit("create_model");
    reveal_strlit("update_model");
    assert("list_model"@.len() != "create_model"@.len());
    assert("list_model"@.len() != "update_model"@.len());
}

/// Which relations the Create and Update models hold: one-to-one,
/// one-to-many and many-to-many in both; belongs-to in Update only;
/// self-references in neither.
pub proof fn relation_kinds_in_models(k: RelationKind)
    ensures
        (k is HasOne || k is HasMany || k is HasManyVia) ==> included_in_create(k)
            && included_in_update(k),
        k is BelongsTo ==> !included_in_create(k) && included_in_update(k),
        k is SelfRef ==> !included_in_create(k) && !included_in_update(k),
{
}

/// The relation types of the generated models by relation: single relations
/// are boxed (doubly optional in Update), the others are lists.
pub proof fn relation_types_by_kind(info: crate::relations::RelationInfo)
    ensures
        (info.relation_type is HasOne || info.relation_type is BelongsTo) ==> create_field_type(
            info,
        ).wrapper == TypeWrapper::OptionBox && update_field_type(info).wrapper
            == TypeWrapper::OptionOptionBox,
        (info.relation_type is HasMany || info.relation_type is HasManyVia
            || info.relation_type is SelfRef) ==> create_field_type(info).wrapper
            == TypeWrapper::OptionVec && update_field_type(info).wrapper == TypeWrapper::OptionVec,
{
}

// ---------------------------------------------------------------------------
// Create model
// ---------------------------------------------------------------------------

/// How a named database field is set from a Create value: a field of the
/// Create model takes its value (with its `on_create` default when it has
/// one, keeping optionality); a field left out is set from `on_create` when
/// it has one, else not set. A non-database field is not set at all.
pub proof fn create_conversion_by_settings(f: FieldModel)
    ensures
        flag_value(f.crudcrate_flags@, "non_db_attr"@) == Some(true) ==> create_conversion_of(
            f,
        ) is None,
        flag_value(f.crudcrate_flags@, "non_db_attr"@) != Some(true) && f.ident is Some ==> {
            let ident = f.ident->0@;
            let in_model = flag_value(f.crudcrate_flags@, "create_model"@) != Some(false);
            &&& create_conversion_of(f) is Some
            &&& in_model && f.on_create is Some && f.is_optional ==> create_conversion_of(f)
                == Some(
                CreateConversion::OptionalWithDefault { ident, expr: f.on_create->0@ },
            )
            &&& in_model && f.on_create is Some && !f.is_optional ==> create_conversion_of(f)
                == Some(CreateConversion::WithDefault { ident, expr: f.on_create->0@ })
            &&& in_model && f.on_create is None && f.is_optional ==> create_conversion_of(f)
                == Some(CreateConversion::OptionalInto { ident })
            &&& in_model && f.on_create is None && !f.is_optional ==> create_conversion_of(f)
                == Some(CreateConversion::Into { ident })
            &&& !in_model && f.on_create is Some ==> create_conversion_of(f) == Some(
                CreateConversion::SetFromExpr {
                    ident,
                    expr: f.on_create->0@,
                    is_optional: f.is_optional,
                },
            )
            &&& !in_model && f.on_create is None ==> create_conversion_of(f) == Some(
                CreateConversion::NotSet { ident },
            )
        },
{
}

/// The Create model's field for a field that is not a relation: a
/// non-database field is resolved by the crate, a field with `on_create` is
/// optional with a default, and any other keeps its own type.
pub proof fn create_field_of_regular_field(f: FieldModel)
    requires
        relation_of_field(f) is None,
    ensures
        flag_value(f.crudcrate_flags@, "non_db_attr"@) == Some(true) ==> create_struct_field_of(f)
            == (CreateStructField::NonDb { ident: opt_chars(f.ident) }),
        flag_value(f.crudcrate_flags@, "non_db_attr"@) != Some(true) && f.on_create is Some
            ==> create_struct_field_of(f) == (CreateStructField::Defaulted {
            ident: opt_chars(f.ident),
            ty: f.ty.tokens@,
        }),
        flag_value(f.crudcrate_flags@, "non_db_attr"@) != Some(true) && f.on_create is None
            ==> create_struct_field_of(f) == (CreateStructField::Plain {
            ident: opt_chars(f.ident),
            ty: f.ty.tokens@,
        }),
{
}

// ---------------------------------------------------------------------------
// Update model
// ---------------------------------------------------------------------------

/// The Update model's field for a database field that is not a relation is
/// doubly optional over the field's own type, except that a field of type
/// `Option<T>` wraps `T`: only an `Option` last segment is unwrapped.
pub proof fn update_field_wraps_own_type(f: FieldModel)
    requires
        relation_of_field(f) is None,
        flag_value(f.crudcrate_flags@, "non_db_attr"@) != Some(true),
    ensures
        (update_struct_field_of(f) matches UpdateStructField::DoubleOption { ident, inner } && ident
            == opt_chars(f.ident)),
        (last_segment(f.ty) is None || last_segment(f.ty)->0.ident@ != "Option"@
            || last_segment(f.ty)->0.first_type_arg is None) ==> update_struct_field_of(f)
            == (UpdateStructField::DoubleOption { ident: opt_chars(f.ident), inner: f.ty.tokens@ }),
        (last_segment(f.ty) matches Some(seg) && seg.ident@ == "Option"@
            && seg.first_type_arg is Some) ==> update_struct_field_of(f)
            == (UpdateStructField::DoubleOption {
            ident: opt_chars(f.ident),
            inner: last_segment(f.ty)->0.first_type_arg->0.tokens@,
        }),
{
}

// ---------------------------------------------------------------------------
// Response model
// ---------------------------------------------------------------------------

/// A relation field of the Response model is a list exactly when the
/// relation is one-to-many, many-to-many or self-referencing (that is, when
/// its Create and Update types are lists), and starts as an empty list; a
/// one-to-one or belongs-to relation is optional and starts unset. Its model
/// type lives in the related entity's module.
pub proof fn response_relation_fields_by_kind(
    f: FieldModel,
    api_struct_name: Seq<char>,
    skip_utoipa: bool,
)
    requires
        relation_of_field(f) is Some,
    ensures
        ({
            let info = relation_of_field(f)->0;
            let k = info.relation_type;
            let many = k is HasMany || k is HasManyVia || k is SelfRef;
            &&& response_struct_field_of(f, api_struct_name, skip_utoipa)
                == ResponseStructField::<Seq<char>, Seq<usize>>::Relation {
                ident: opt_chars(f.ident),
                many,
                entity_module: module_path_of(info.related_entity_path),
                schema_object: !skip_utoipa,
            }
            &&& many ==> response_assignment_of(f) == ResponseAssignment::EmptyList {
                ident: opt_chars(f.ident),
            }
            &&& !many ==> response_assignment_of(f) == ResponseAssignment::Unset {
                ident: opt_chars(f.ident),
            }
            &&& many == (create_field_type(info).wrapper == TypeWrapper::OptionVec)
            &&& many == (update_field_type(info).wrapper == TypeWrapper::OptionVec)
        }),
{
}

/// The attribute is `#[crudcrate(...)]` or `#[sea_orm(...)]`.
pub open spec fn is_model_attribute(a: AttrModel) -> bool {
    a.path_ident matches Some(id) && (id@ == "crudcrate"@ || id@ == "sea_orm"@)
}

proof fn lemma_kept_positions(attrs: Seq<AttrModel>)
    requires
        attrs.len() <= usize::MAX,
    ensures
        keeps_exactly_other_attributes(
            attrs,
            crate::codegen::response::kept_attr_positions(attrs),
        ),
    decreases attrs.len(),
{
    if attrs.len() > 0 {
        let init = attrs.drop_last();
        lemma_kept_positions(init);
        let prev = crate::codegen::response::kept_attr_positions(init);
        let r = crate::codegen::response::kept_attr_positions(attrs);
        let last = (attrs.len() - 1) as usize;
        let kept_last = !is_model_attribute(attrs.last());
        assert(kept_last == crate::codegen::response::kept_attr(attrs.last()));
        if kept_last {
            assert(r == prev.push(last));
        } else {
            assert(r == prev);
        }
        assert forall|k: int| 0 <= k < prev.len() implies #[trigger] prev[k] < init.len() by {}
        assert forall|k: int|
            0 <= k < r.len() implies #[trigger] r[k] < attrs.len() && !is_model_attribute(
            attrs[r[k] as int],
        ) by {
            if k < prev.len() {
                assert(r[k] == prev[k]);
                assert(init[prev[k] as int] == attrs[prev[k] as int]);
            }
        }
        assert forall|j: int|
            0 <= j < attrs.len() && !is_model_attribute(#[trigger] attrs[j]) implies r.contains(
            j as usize,
        ) by {
            if j < init.len() {
                assert(init[j] == attrs[j]);
                assert(prev.contains(j as usize));
                let k = choose|k: int| 0 <= k < prev.len() && prev[k] == j as usize;
                assert(r[k] == prev[k]);
            } else {
                assert(r[prev.len() as int] == last);
            }
        }
        assert forall|k1: int, k2: int| 0 <= k1 < k2 < r.len() implies #[trigger] r[k1]
            < #[trigger] r[k2] by {
            assert(r[k1] == prev[k1]);
            if k2 < prev.len() {
                assert(r[k2] == prev[k2]);
            }
        }
    }
}

/// `kept` lists, in increasing order, exactly the positions of the
/// attributes in `attrs` that are not `#[crudcrate(...)]` or `#[sea_orm(...)]`.
pub open spec fn keeps_exactly_other_attributes(attrs: Seq<AttrModel>, kept: Seq<usize>) -> bool {
    &&& forall|k: int|
        0 <= k < kept.len() ==> #[trigger] kept[k] < attrs.len() && !is_model_attribute(
            attrs[kept[k] as int],
        )
    &&& forall|j: int|
        0 <= j < attrs.len() && !is_model_attribute(#[trigger] attrs[j]) ==> kept.contains(
            j as usize,
        )
    &&& forall|k1: int, k2: int| 0 <= k1 < k2 < kept.len() ==> #[trigger] kept[k1] < #[trigger] kept[k2]
}

/// A regular field of the Response model keeps its type, keeps (in order)
/// exactly the attributes that are not `#[crudcrate(...)]` or
/// `#[sea_orm(...)]`, and is marked `no_recursion` exactly when schemas are
/// generated and it refers to the API struct or is a join field; its value is
/// copied from the model.
pub proof fn response_regular_fields(f: FieldModel, api_struct_name: Seq<char>, skip_utoipa: bool)
    requires
        relation_of_field(f) is None,
        f.attrs@.len() <= usize::MAX,
    ensures
        response_assignment_of(f) == (ResponseAssignment::Copy { ident: opt_chars(f.ident) }),
        response_struct_field_of(f, api_struct_name, skip_utoipa) == (ResponseStructField::Regular {
            ident: opt_chars(f.ident),
            ty: f.ty.tokens@,
            kept_attrs: crate::codegen::response::kept_attr_positions(f.attrs@),
            no_recursion: !skip_utoipa && (contains(f.ty.tokens@, api_struct_name) || f.join is Some),
        }),
        keeps_exactly_other_attributes(
            f.attrs@,
            crate::codegen::response::kept_attr_positions(f.attrs@),
        ),
{
    lemma_kept_positions(f.attrs@);
}

// ---------------------------------------------------------------------------
// More on detection
// ---------------------------------------------------------------------------

/// For a named field typed `Option<Box<E>>` or `Option<E>`, a relation that
/// its attributes name is detected, related to `E`, with the attributes'
/// relation type and foreign key.
pub proof fn attribute_relation_on_option_field(f: FieldModel)
    requires
        f.ident is Some,
        last_segment(f.ty) matches Some(seg) && seg.ident@ == "Option"@ && seg.first_type_arg is Some,
        sea_orm_relation_attrs(f.attrs@).0 is Some,
    ensures
        relation_of_field(f) matches Some(info) && info.relation_type == sea_orm_relation_attrs(
            f.attrs@,
        ).0->0 && info.foreign_key == sea_orm_relation_attrs(f.attrs@).1 && info.field_name
            == f.ident->0@,
        ({
            let inner = *last_segment(f.ty)->0.first_type_arg->0;
            let entity = if last_segment(inner) matches Some(b) && b.ident@ == "Box"@
                && b.first_type_arg is Some {
                *last_segment(inner)->0.first_type_arg->0
            } else {
                inner
            };
            &&& relation_of_field(f)->0.related_entity_path == entity.tokens@
            &&& relation_of_field(f)->0.related_model_name == model_name_of(entity)
        }),
{
    reveal_strlit("Option");
    reveal_strlit("HasOne");
    reveal_strlit("HasMany");
    assert("Option"@[0] != "HasOne"@[0]);
    assert("Option"@[0] != "HasMany"@[0]);
}

/// A field whose type is neither `HasOne<..>`, `HasMany<..>` nor
/// `Option<..>` is never a relation, whatever its attributes; nor is a field
/// whose attributes name no relation and whose type is neither `HasOne<..>`
/// nor `HasMany<..>`.
pub proof fn relation_fields_need_a_relation_shape(f: FieldModel)
    ensures
        (last_segment(f.ty) is None || (last_segment(f.ty)->0.ident@ != "HasOne"@
            && last_segment(f.ty)->0.ident@ != "HasMany"@ && last_segment(f.ty)->0.ident@
            != "Option"@)) ==> relation_of_field(f) is None,
        (last_segment(f.ty) is None || (last_segment(f.ty)->0.ident@ != "HasOne"@
            && last_segment(f.ty)->0.ident@ != "HasMany"@)) && sea_orm_relation_attrs(f.attrs@).0
            is None ==> relation_of_field(f) is None,
{
}

// ---------------------------------------------------------------------------
// More on model names
// ---------------------------------------------------------------------------

proof fn lemma_no_entity_index(segs: Seq<PathSegmentModel>, i: int)
    requires
        1 <= i,
        forall|j: int| i <= j < segs.len() ==> (#[trigger] segs[j]).ident@ != "Entity"@,
    ensures
        entity_index_from(segs, i) is None,
    decreases segs.len() - i,
{
    if i < segs.len() {
        lemma_no_entity_index(segs, i + 1);
    }
}

/// A path type with no `Entity` segment after the first is named after its
/// last segment (in PascalCase) unless that segment is `Entity`, in which
/// case, as for a non-path type, the name is `Unknown`.
pub proof fn model_name_without_module_entity(ty: crate::model::TypeModel)
    ensures
        ty.path is None ==> model_name_of(ty) == "Unknown"@,
        ty.path is Some && (forall|j: int|
            1 <= j < ty.path->0@.len() ==> (#[trigger] ty.path->0@[j]).ident@ != "Entity"@)
            ==> (if ty.path->0@.len() > 0 && ty.path->0@.last().ident@ != "Entity"@ {
            model_name_of(ty) == pascal_case(ty.path->0@.last().ident@)
        } else {
            model_name_of(ty) == "Unknown"@
        }),
{
    if ty.path is Some {
        let segs = ty.path->0@;
        if forall|j: int| 1 <= j < segs.len() ==> (#[trigger] segs[j]).ident@ != "Entity"@ {
            lemma_no_entity_index(segs, 1);
        }
    }
}

// ---------------------------------------------------------------------------
// More on the plans
// ---------------------------------------------------------------------------

/// How relations are set from a Create value and merged from an Update
/// value: a one-to-one relation from its nested value; a belongs-to relation
/// not set and not merged; the many-valued ones appended on create and
/// replaced on update.
pub proof fn relation_conversions_and_merges_by_kind(info: RelationInfo)
    ensures
        info.relation_type is HasOne ==> relation_conversion_of(info) == (
        RelationConversion::HasOneSet { ident: info.field_name }) && relation_merge_of(info) == (
        RelationMerge::HasOneSet { ident: info.field_name }),
        info.relation_type is BelongsTo ==> relation_conversion_of(info) == (
        RelationConversion::HasOneNotSet { ident: info.field_name }) && relation_merge_of(info)
            == RelationMerge::<Seq<char>>::Nothing,
        (info.relation_type is HasMany || info.relation_type is HasManyVia
            || info.relation_type is SelfRef) ==> relation_conversion_of(info) == (
        RelationConversion::HasManyAppend { ident: info.field_name }) && relation_merge_of(info)
            == (RelationMerge::HasManyReplace { ident: info.field_name }),
{
}

/// A relation field that the Create (Update) model holds gets the relation's
/// Create (Update) type; one that it does not hold is planned as a regular
/// field.
pub proof fn relation_field_plans(f: FieldModel)
    requires
        relation_of_field(f) is Some,
    ensures
        ({
            let info = relation_of_field(f)->0;
            &&& included_in_create(info.relation_type) ==> create_struct_field_of(f) == (
            CreateStructField::Relation { ident: opt_chars(f.ident), ty: create_field_type(info) })
            &&& included_in_update(info.relation_type) ==> update_struct_field_of(f) == (
            UpdateStructField::Relation { ident: opt_chars(f.ident), ty: update_field_type(info) })
            &&& !included_in_create(info.relation_type) && flag_value(
                f.crudcrate_flags@,
                "non_db_attr"@,
            ) != Some(true) && f.on_create is None ==> create_struct_field_of(f) == (
            CreateStructField::Plain { ident: opt_chars(f.ident), ty: f.ty.tokens@ })
        }),
{
}

// ---------------------------------------------------------------------------
// More on text
// ---------------------------------------------------------------------------

/// A single word (no underscore) becomes its first character upper-cased
/// followed by the rest unchanged; on ASCII the upper-casing is the ASCII one.
pub proof fn pascal_case_of_one_word(s: Seq<char>)
    requires
        s.len() > 0,
        forall|i: int| 0 <= i < s.len() ==> #[trigger] s[i] != '_',
    ensures
        pascal_case(s) == uppercase_of(s[0]) + s.skip(1),
        pascal_case_ascii(s) == seq![ascii_upper(s[0])] + s.skip(1),
    decreases s.len(),
{
    let init = s.drop_last();
    if s.len() == 1 {
        assert(init =~= Seq::<char>::empty());
        assert(s.skip(1) =~= Seq::<char>::empty());
        assert(s.last() == s[0]);
        assert(pascal_case(init) == Seq::<char>::empty());
        assert(pascal_case_ascii(init) == Seq::<char>::empty());
        assert(pascal_case(s) == pascal_case(init) + uppercase_of(s[0]));
        assert(pascal_case(init) + uppercase_of(s[0]) =~= uppercase_of(s[0]) + s.skip(1));
        assert(pascal_case_ascii(s) == pascal_case_ascii(init).push(ascii_upper(s[0])));
        assert(pascal_case_ascii(init).push(ascii_upper(s[0])) =~= seq![ascii_upper(s[0])] + s.skip(
            1,
        ));
    } else {
        assert forall|i: int| 0 <= i < init.len() implies #[trigger] init[i] != '_' by {
            assert(init[i] == s[i]);
        }
        pascal_case_of_one_word(init);
        assert(init[0] == s[0]);
        assert(init.last() == s[s.len() - 2]);
        assert(s.last() == s[s.len() - 1]);
        assert(s.last() != '_' && init.last() != '_');
        assert(pascal_case(s) == pascal_case(init).push(s.last()));
        assert(pascal_case_ascii(s) == pascal_case_ascii(init).push(s.last()));
        assert((uppercase_of(s[0]) + init.skip(1)).push(s.last()) =~= uppercase_of(s[0]) + s.skip(
            1,
        ));
        assert((seq![ascii_upper(s[0])] + init.skip(1)).push(s.last()) =~= seq![ascii_upper(s[0])]
            + s.skip(1));
    }
}

/// An attribute text that starts with `name = 'value'` gives back `value`,
/// whatever follows, when no double quote appears in it and `value` holds no
/// single quote.
pub proof fn attr_value_reads_back_single_quoted_value(
    name: Seq<char>,
    value: Seq<char>,
    rest: Seq<char>,
)
    requires
        forall|i: int| 0 <= i < name.len() ==> name[i] != '"',
        forall|i: int| 0 <= i < value.len() ==> value[i] != '"' && value[i] != '\'',
        forall|i: int| 0 <= i < rest.len() ==> rest[i] != '"',
    ensures
        attr_value(single_quote_pattern(name) + value + seq!['\''] + rest, name) == Some(value),
{
    let pat = single_quote_pattern(name);
    let t = pat + value + seq!['\''] + rest;
    let dpat = double_quote_pattern(name);
    assert forall|i: int| 0 <= i < t.len() implies t[i] != '"' by {
        if i < name.len() {
            assert(t[i] == name[i]);
        } else if i < pat.len() {
        } else if i < pat.len() + value.len() {
            assert(t[i] == value[i - pat.len()]);
        } else if i > pat.len() + value.len() {
            assert(t[i] == rest[i - pat.len() - value.len() - 1]);
        }
    }
    lemma_find_from(t, dpat, 0);
    if find_from(t, dpat, 0) is Some {
        let j = find_from(t, dpat, 0)->0;
        assert(t.subrange(j, j + dpat.len())[dpat.len() - 1] == dpat[dpat.len() - 1]);
        assert(false);
    }
    let q = seq!['\''];
    assert(t.subrange(0, pat.len() as int) =~= pat);
    lemma_find_from_first(t, pat, 0, 0);
    let e: int = pat.len() + value.len() as int;
    assert(t.subrange(e, e + 1) =~= q);
    assert forall|j: int| pat.len() <= j < e implies !#[trigger] matches_at(t, q, j) by {
        assert(t[j] == value[j - pat.len()]);
        assert(t.subrange(j, j + 1)[0] == t[j]);
    }
    lemma_find_from_first(t, q, pat.len() as int, e);
    assert(t.subrange(pat.len() as int, e) =~= value);
}

/// The token text of an entity path `p::Entity` (spaces anywhere) names the
/// module `p`, for a module text `p` without white space that does not end
/// in `::`: the module path is `p` when `p` parses as a path, else there is
/// none.
pub proof fn module_path_of_entity_in_module(q: Seq<char>, p: Seq<char>)
    requires
        p.len() > 0,
        forall|i: int| 0 <= i < p.len() ==> !is_white_space(#[trigger] p[i]),
        !(p.len() >= 2 && p[p.len() - 1] == ':' && p[p.len() - 2] == ':'),
        without_spaces(q) == p + seq![':', ':', 'E', 'n', 't', 'i', 't', 'y'],
    ensures
        cleaned_entity_path(q) == p,
        module_path_of(q) == (if parses_as_path(p) {
            Some(p)
        } else {
            None
        }),
{
    reveal_strlit("Entity");
    reveal_strlit("::");
    let e = seq!['E', 'n', 't', 'i', 't', 'y'];
    let c = seq![':', ':'];
    assert("Entity"@ =~= e);
    assert("::"@ =~= c);
    let s0 = p + c + e;
    assert(without_spaces(q) =~= s0);
    assert(s0.subrange(s0.len() - 6, s0.len() as int) =~= e);
    assert(s0.subrange(0, s0.len() - 6) =~= p + c);
    let pc = p + c;
    assert(pc[pc.len() - 1] == ':');
    if pc.len() >= 6 {
        assert(pc.subrange(pc.len() - 6, pc.len() as int)[5] == pc[pc.len() - 1]);
    }
    assert(!ends_with(pc, e));
    assert(trim_end_matches(pc, e) == pc);
    assert(trim_end_matches(s0, e) == pc);
    assert(pc.subrange(pc.len() - 2, pc.len() as int) =~= c);
    assert(pc.subrange(0, pc.len() - 2) =~= p);
    if p.len() >= 2 {
        assert(p.subrange(p.len() - 2, p.len() as int)[1] == p[p.len() - 1]);
        assert(p.subrange(p.len() - 2, p.len() as int)[0] == p[p.len() - 2]);
    }
    assert(!ends_with(p, c));
    assert(trim_end_matches(p, c) == p);
    assert(trim_end_matches(pc, c) == p);
    assert(!is_white_space(p[p.len() - 1]));
    assert(!is_white_space(p[0]));
    assert(trim_end_ws(p) == p);
    assert(trim_start_ws(p) == p);
}

/// `contains(h, p)` holds exactly when `p` occurs somewhere in `h`.
pub proof fn contains_means_occurs(h: Seq<char>, p: Seq<char>)
    ensures
        contains(h, p) <==> exists|i: int|
            0 <= i && i + p.len() <= h.len() && #[trigger] h.subrange(i, i + p.len()) == p,
{
    lemma_find_from(h, p, 0);
    if contains(h, p) {
        let i = find_from(h, p, 0)->0;
        assert(matches_at(h, p, i));
        assert(h.subrange(i, i + p.len()) == p);
    } else {
        assert forall|i: int| 0 <= i && i + p.len() <= h.len() implies #[trigger] h.subrange(
            i,
            i + p.len(),
        ) != p by {
            assert(!matches_at(h, p, i));
        }
    }
}

/// A field's setting for a key is the value of the first entry with that
/// key, and there is none when no entry has the key.
pub proof fn setting_is_first_entry_for_key(flags: Seq<CrudcrateFlag>, key: Seq<char>)
    ensures
        (forall|i: int| 0 <= i < flags.len() ==> (#[trigger] flags[i]).key@ != key) ==> flag_value(
            flags,
            key,
        ) is None,
        forall|i: int|
            0 <= i < flags.len() && (#[trigger] flags[i]).key@ == key && (forall|j: int|
                0 <= j < i ==> flags[j].key@ != key) ==> flag_value(flags, key) == Some(
                flags[i].value,
            ),
    decreases flags.len(),
{
    if flags.len() > 0 {
        let rest = flags.drop_first();
        setting_is_first_entry_for_key(rest, key);
        assert forall|i: int| 0 <= i < rest.len() implies rest[i] == flags[i + 1] by {}
        if (forall|i: int| 0 <= i < flags.len() ==> (#[trigger] flags[i]).key@ != key) {
            assert(flags[0].key@ != key);
            assert forall|i: int| 0 <= i < rest.len() implies (#[trigger] rest[i]).key@ != key by {
                assert(rest[i] == flags[i + 1]);
            }
        }
        assert forall|i: int|
            0 <= i < flags.len() && (#[trigger] flags[i]).key@ == key && (forall|j: int|
                0 <= j < i ==> flags[j].key@ != key) implies flag_value(flags, key) == Some(
            flags[i].value,
        ) by {
            if i > 0 {
                assert(flags[0].key@ != key);
                assert(rest[i - 1] == flags[i]);
                assert forall|j: int| 0 <= j < i - 1 implies rest[j].key@ != key by {
                    assert(rest[j] == flags[j + 1]);
                }
            }
        }
    }
}

} // verus!
