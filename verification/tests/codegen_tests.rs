use crudcrate_derive::codegen::create::{
    generate_create_conversion_lines, generate_create_relation_conversion_lines,
    generate_create_relation_fields, generate_create_struct_fields, CreateConversion,
    CreateStructField, RelationConversion,
};
use crudcrate_derive::codegen::response::{
    clean_entity_path, extract_module_path_from_entity, generate_response_from_assignments,
    generate_response_struct_fields, module_path_from_cleaned, ResponseAssignment,
    ResponseStructField,
};
use crudcrate_derive::codegen::update::{
    filter_update_fields, generate_update_relation_fields, generate_update_relation_merge_lines,
    generate_update_struct_fields, RelationMerge, UpdateStructField,
};
use crudcrate_derive::codegen::{should_include_in_model, RelationStructField};
use crudcrate_derive::model::{
    AttrModel, CrudcrateFlag, FieldModel, JoinSettings, PathSegmentModel, TypeModel,
};
use crudcrate_derive::relations::{
    RelationFieldInfo, RelationFieldType, RelationType, TypeWrapper,
};

fn seg(ident: &str) -> PathSegmentModel {
    PathSegmentModel { ident: ident.to_string(), first_type_arg: None }
}

fn seg_of(ident: &str, arg: TypeModel) -> PathSegmentModel {
    PathSegmentModel { ident: ident.to_string(), first_type_arg: Some(Box::new(arg)) }
}

fn simple(name: &str) -> TypeModel {
    TypeModel { tokens: name.to_string(), path: Some(vec![seg(name)]) }
}

fn wrapped(wrapper: &str, inner: TypeModel) -> TypeModel {
    TypeModel {
        tokens: format!("{} < {} >", wrapper, inner.tokens),
        path: Some(vec![seg_of(wrapper, inner)]),
    }
}

fn entity(module: &str) -> TypeModel {
    TypeModel {
        tokens: format!("super :: {} :: Entity", module),
        path: Some(vec![seg("super"), seg(module), seg("Entity")]),
    }
}

fn attr(path: &str, tokens: &str) -> AttrModel {
    AttrModel { path_ident: Some(path.to_string()), list_tokens: Some(tokens.to_string()) }
}

fn flag(key: &str, value: bool) -> CrudcrateFlag {
    CrudcrateFlag { key: key.to_string(), value }
}

fn field(name: &str, ty: TypeModel) -> FieldModel {
    FieldModel {
        ident: Some(name.to_string()),
        ty,
        attrs: vec![],
        crudcrate_flags: vec![],
        on_create: None,
        join: None,
        is_optional: false,
    }
}

fn info(name: &str, relation_type: RelationType, model: &str) -> RelationFieldInfo {
    RelationFieldInfo {
        field_name: name.to_string(),
        relation_type,
        related_entity_path: format!("super :: {} :: Entity", name),
        related_model_name: model.to_string(),
        foreign_key: None,
    }
}

fn s(x: &str) -> String {
    x.to_string()
}

// ---------------------------------------------------------------------------
// Field filtering
// ---------------------------------------------------------------------------

#[test]
fn plain_field_is_in_every_model() {
    let f = field("name", simple("String"));
    for model in ["create_model", "update_model", "list_model", "one_model"] {
        assert!(should_include_in_model(&f, model));
    }
}

#[test]
fn field_setting_decides_for_regular_fields() {
    let mut f = field("id", simple("Uuid"));
    f.crudcrate_flags = vec![flag("create_model", false), flag("update_model", true)];
    assert!(!should_include_in_model(&f, "create_model"));
    assert!(should_include_in_model(&f, "update_model"));
    assert!(should_include_in_model(&f, "list_model"));
}

#[test]
fn relation_fields_are_left_out_of_model_fields() {
    let mut f = field("posts", wrapped("HasMany", entity("post")));
    f.crudcrate_flags = vec![flag("create_model", true)];
    assert!(!should_include_in_model(&f, "create_model"));
    assert!(!should_include_in_model(&f, "update_model"));
    assert!(!should_include_in_model(&f, "list_model"));
    assert!(should_include_in_model(&f, "one_model"));
}

#[test]
fn join_fields_in_models() {
    let mut f = field("vehicles", simple("Vec < Vehicle >"));
    f.join = Some(JoinSettings { on_all: false });
    assert!(!should_include_in_model(&f, "create_model"));
    assert!(!should_include_in_model(&f, "update_model"));
    assert!(!should_include_in_model(&f, "list_model"));
    f.join = Some(JoinSettings { on_all: true });
    assert!(should_include_in_model(&f, "list_model"));
    f.crudcrate_flags = vec![flag("list_model", false)];
    assert!(!should_include_in_model(&f, "list_model"));
}

// ---------------------------------------------------------------------------
// Create model
// ---------------------------------------------------------------------------

#[test]
fn create_conversions_cover_every_case() {
    let mut optional_default = field("a", wrapped("Option", simple("String")));
    optional_default.is_optional = true;
    optional_default.on_create = Some(s("default_a ()"));
    let mut required_default = field("b", simple("i32"));
    required_default.on_create = Some(s("0"));
    let mut optional = field("c", wrapped("Option", simple("i32")));
    optional.is_optional = true;
    let required = field("d", simple("i32"));
    let mut excluded_with_expr = field("e", simple("Uuid"));
    excluded_with_expr.crudcrate_flags = vec![flag("create_model", false)];
    excluded_with_expr.on_create = Some(s("Uuid :: new_v4 ()"));
    let mut excluded = field("f", simple("i32"));
    excluded.crudcrate_flags = vec![flag("create_model", false)];
    let mut non_db = field("g", simple("i32"));
    non_db.crudcrate_flags = vec![flag("non_db_attr", true)];
    non_db.ident = None;

    let lines = generate_create_conversion_lines(&vec![
        optional_default,
        required_default,
        optional,
        required,
        excluded_with_expr,
        excluded,
        non_db,
    ]);
    assert_eq!(
        lines,
        vec![
            CreateConversion::OptionalWithDefault { ident: s("a"), expr: s("default_a ()") },
            CreateConversion::WithDefault { ident: s("b"), expr: s("0") },
            CreateConversion::OptionalInto { ident: s("c") },
            CreateConversion::Into { ident: s("d") },
            CreateConversion::SetFromExpr {
                ident: s("e"),
                expr: s("Uuid :: new_v4 ()"),
                is_optional: false,
            },
            CreateConversion::NotSet { ident: s("f") },
        ]
    );
}

#[test]
fn create_struct_fields_filter_and_type() {
    let mut id = field("id", simple("Uuid"));
    id.crudcrate_flags = vec![flag("create_model", false)];
    let name = field("name", simple("String"));
    let mut created = field("created_at", simple("DateTime"));
    created.on_create = Some(s("Utc :: now ()"));
    let mut extra = field("extra", simple("String"));
    extra.crudcrate_flags = vec![flag("non_db_attr", true)];
    let posts = field("posts", wrapped("HasMany", entity("post")));

    let fields = generate_create_struct_fields(&vec![id, name, created, extra, posts]);
    assert_eq!(
        fields,
        vec![
            CreateStructField::Plain { ident: Some(s("name")), ty: s("String") },
            CreateStructField::Defaulted { ident: Some(s("created_at")), ty: s("DateTime") },
            CreateStructField::NonDb { ident: Some(s("extra")) },
        ]
    );
}

#[test]
fn create_relation_fields_and_conversions() {
    let infos = vec![
        info("profile", RelationType::HasOne, "Profile"),
        info("posts", RelationType::HasMany, "Post"),
        info("author", RelationType::BelongsTo, "User"),
        info("tags", RelationType::HasManyVia { via: s("post_tag") }, "Tag"),
        info("children", RelationType::SelfRef { via: None, reverse: false }, "Category"),
    ];
    let fields = generate_create_relation_fields(&infos);
    assert_eq!(
        fields,
        vec![
            RelationStructField {
                ident: s("profile"),
                ty: RelationFieldType { wrapper: TypeWrapper::OptionBox, model_name: s("ProfileCreate") },
            },
            RelationStructField {
                ident: s("posts"),
                ty: RelationFieldType { wrapper: TypeWrapper::OptionVec, model_name: s("PostCreate") },
            },
            RelationStructField {
                ident: s("tags"),
                ty: RelationFieldType { wrapper: TypeWrapper::OptionVec, model_name: s("TagCreate") },
            },
        ]
    );
    let conversions = generate_create_relation_conversion_lines(&infos);
    assert_eq!(
        conversions,
        vec![
            RelationConversion::HasOneSet { ident: s("profile") },
            RelationConversion::HasManyAppend { ident: s("posts") },
            RelationConversion::HasManyAppend { ident: s("tags") },
        ]
    );
}

// ---------------------------------------------------------------------------
// Update model
// ---------------------------------------------------------------------------

#[test]
fn update_fields_are_filtered() {
    let mut id = field("id", simple("Uuid"));
    id.crudcrate_flags = vec![flag("update_model", false)];
    let name = field("name", simple("String"));
    let profile = field("profile", wrapped("HasOne", entity("profile")));
    let all = vec![id, name, profile];
    let kept = filter_update_fields(&all);
    assert_eq!(kept.len(), 1);
    assert_eq!(kept[0].ident, Some(s("name")));
}

#[test]
fn update_struct_fields_unwrap_option() {
    let bio = field("bio", wrapped("Option", simple("String")));
    let name = field("name", simple("String"));
    let mut extra = field("extra", simple("String"));
    extra.crudcrate_flags = vec![flag("non_db_attr", true)];
    let user = field("user", wrapped("Option", entity("user")));
    let mut user = user;
    user.attrs = vec![attr("sea_orm", "belongs_to")];
    let fields = generate_update_struct_fields(&vec![&bio, &name, &extra, &user]);
    assert_eq!(
        fields,
        vec![
            UpdateStructField::DoubleOption { ident: Some(s("bio")), inner: s("String") },
            UpdateStructField::DoubleOption { ident: Some(s("name")), inner: s("String") },
            UpdateStructField::NonDb { ident: Some(s("extra")) },
            UpdateStructField::Relation {
                ident: Some(s("user")),
                ty: RelationFieldType { wrapper: TypeWrapper::OptionOptionBox, model_name: s("User") },
            },
        ]
    );
}

#[test]
fn update_relation_fields_and_merges() {
    let infos = vec![
        info("profile", RelationType::HasOne, "Profile"),
        info("author", RelationType::BelongsTo, "User"),
        info("posts", RelationType::HasMany, "Post"),
        info("children", RelationType::SelfRef { via: None, reverse: false }, "Category"),
    ];
    let fields = generate_update_relation_fields(&infos);
    assert_eq!(
        fields,
        vec![
            RelationStructField {
                ident: s("profile"),
                ty: RelationFieldType {
                    wrapper: TypeWrapper::OptionOptionBox,
                    model_name: s("ProfileUpdate"),
                },
            },
            RelationStructField {
                ident: s("author"),
                ty: RelationFieldType { wrapper: TypeWrapper::OptionOptionBox, model_name: s("User") },
            },
            RelationStructField {
                ident: s("posts"),
                ty: RelationFieldType { wrapper: TypeWrapper::OptionVec, model_name: s("PostUpdate") },
            },
        ]
    );
    let merges = generate_update_relation_merge_lines(&infos);
    assert_eq!(
        merges,
        vec![
            RelationMerge::HasOneSet { ident: s("profile") },
            RelationMerge::Nothing,
            RelationMerge::HasManyReplace { ident: s("posts") },
        ]
    );
}

// ---------------------------------------------------------------------------
// Response model
// ---------------------------------------------------------------------------

#[test]
fn entity_paths_clean_to_module_paths() {
    assert_eq!(clean_entity_path("super :: fruit :: Entity"), "super::fruit");
    assert_eq!(clean_entity_path("\tcrate :: a :: Entity ::\n"), "crate::a::Entity");
    assert_eq!(clean_entity_path("Entity"), "");
    assert_eq!(clean_entity_path("EntityEntity"), "");
}

#[test]
fn module_paths_of_entities() {
    assert_eq!(extract_module_path_from_entity("super :: fruit :: Entity"), Some(s("super::fruit")));
    assert_eq!(extract_module_path_from_entity("Entity"), None);
    assert_eq!(extract_module_path_from_entity("Vec < x :: Entity >"), Some(s("Vec<x::Entity>")));
    assert_eq!(extract_module_path_from_entity("super :: 1bad :: Entity"), None);
    assert_eq!(extract_module_path_from_entity("crate :: models"), Some(s("crate::models")));
}

#[test]
fn module_path_from_parse_outcome() {
    assert_eq!(module_path_from_cleaned("super::fruit", true), Some(s("super::fruit")));
    assert_eq!(module_path_from_cleaned("super::fruit", false), None);
    assert_eq!(module_path_from_cleaned("", true), None);
}

#[test]
fn response_assignments_default_relations() {
    let name = field("name", simple("String"));
    let posts = field("posts", wrapped("HasMany", entity("post")));
    let profile = field("profile", wrapped("HasOne", entity("profile")));
    let mut hidden = field("secret", simple("String"));
    hidden.crudcrate_flags = vec![flag("one_model", false)];
    let lines = generate_response_from_assignments(&vec![name, posts, profile, hidden]);
    assert_eq!(
        lines,
        vec![
            ResponseAssignment::Copy { ident: Some(s("name")) },
            ResponseAssignment::EmptyList { ident: Some(s("posts")) },
            ResponseAssignment::Unset { ident: Some(s("profile")) },
        ]
    );
}

#[test]
fn response_struct_fields_types_and_attributes() {
    let mut name = field("name", simple("String"));
    name.attrs = vec![
        attr("crudcrate", "filterable"),
        attr("serde", "rename = \"n\""),
        attr("sea_orm", "unique"),
    ];
    let parent = field("parent", wrapped("Option", simple("Category")));
    let mut vehicles = field("vehicles", simple("Vec < Vehicle >"));
    vehicles.join = Some(JoinSettings { on_all: true });
    let posts = field("posts", wrapped("HasMany", entity("post")));
    let fields = vec![name, parent, vehicles, posts];

    let out = generate_response_struct_fields(&fields, "Category", false);
    assert_eq!(
        out,
        vec![
            ResponseStructField::Regular {
                ident: Some(s("name")),
                ty: s("String"),
                kept_attrs: vec![1],
                no_recursion: false,
            },
            ResponseStructField::Regular {
                ident: Some(s("parent")),
                ty: s("Option < Category >"),
                kept_attrs: vec![],
                no_recursion: true,
            },
            ResponseStructField::Regular {
                ident: Some(s("vehicles")),
                ty: s("Vec < Vehicle >"),
                kept_attrs: vec![],
                no_recursion: true,
            },
            ResponseStructField::Relation {
                ident: Some(s("posts")),
                many: true,
                entity_module: Some(s("super::post")),
                schema_object: true,
            },
        ]
    );

    let out = generate_response_struct_fields(&fields, "Category", true);
    assert!(matches!(out[1], ResponseStructField::Regular { no_recursion: false, .. }));
    assert!(matches!(out[3], ResponseStructField::Relation { schema_object: false, .. }));
}

#[test]
fn response_fields_match_assignments_example() {
    let fields = vec![
        field("name", simple("String")),
        field("posts", wrapped("HasMany", entity("post"))),
        field("profile", wrapped("HasOne", entity("profile"))),
    ];
    let defs = generate_response_struct_fields(&fields, "User", false);
    let values = generate_response_from_assignments(&fields);
    assert_eq!(defs.len(), values.len());
    for (d, v) in defs.iter().zip(values.iter()) {
        match d {
            ResponseStructField::Relation { many: true, .. } => {
                assert!(matches!(v, ResponseAssignment::EmptyList { .. }))
            }
            ResponseStructField::Relation { many: false, .. } => {
                assert!(matches!(v, ResponseAssignment::Unset { .. }))
            }
            ResponseStructField::Regular { .. } => {
                assert!(matches!(v, ResponseAssignment::Copy { .. }))
            }
        }
    }
}
