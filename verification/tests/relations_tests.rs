use crudcrate_derive::model::{AttrModel, FieldModel, PathSegmentModel, TypeModel};
use crudcrate_derive::relations::{
    detect_relation_field, extract_entity_from_option_type, extract_model_name_from_entity_path,
    generate_create_field_type, generate_update_field_type, is_relation_field,
    parse_relation_type, parse_sea_orm_relation_attrs, should_include_relation_in_create,
    should_include_relation_in_update, ForeignKeyInfo, RelationFieldInfo, RelationType,
    TypeWrapper,
};
use crudcrate_derive::text::{extract_attr_value, to_pascal_case};

fn seg(ident: &str) -> PathSegmentModel {
    PathSegmentModel { ident: ident.to_string(), first_type_arg: None }
}

fn seg_of(ident: &str, arg: TypeModel) -> PathSegmentModel {
    PathSegmentModel { ident: ident.to_string(), first_type_arg: Some(Box::new(arg)) }
}

fn path_type(tokens: &str, segments: Vec<PathSegmentModel>) -> TypeModel {
    TypeModel { tokens: tokens.to_string(), path: Some(segments) }
}

/// `super::<module>::Entity`
fn entity(module: &str) -> TypeModel {
    path_type(
        &format!("super :: {} :: Entity", module),
        vec![seg("super"), seg(module), seg("Entity")],
    )
}

/// `<wrapper><super::<module>::Entity>`
fn wrapped_entity(wrapper: &str, module: &str) -> TypeModel {
    let inner = entity(module);
    path_type(&format!("{} < {} >", wrapper, inner.tokens), vec![seg_of(wrapper, inner)])
}

fn sea_orm_attr(tokens: &str) -> AttrModel {
    AttrModel { path_ident: Some("sea_orm".to_string()), list_tokens: Some(tokens.to_string()) }
}

fn field(name: &str, ty: TypeModel, attrs: Vec<AttrModel>) -> FieldModel {
    FieldModel {
        ident: Some(name.to_string()),
        ty,
        attrs,
        crudcrate_flags: vec![],
        on_create: None,
        join: None,
        is_optional: false,
    }
}

fn info(name: &str, relation_type: RelationType, model: &str) -> RelationFieldInfo {
    RelationFieldInfo {
        field_name: name.to_string(),
        relation_type,
        related_entity_path: String::new(),
        related_model_name: model.to_string(),
        foreign_key: None,
    }
}

// ---------------------------------------------------------------------------
// Detection, parsing and field types on typical entity fields
// ---------------------------------------------------------------------------

#[test]
fn test_to_pascal_case() {
    assert_eq!(to_pascal_case("user"), "User");
    assert_eq!(to_pascal_case("user_profile"), "UserProfile");
    assert_eq!(to_pascal_case("vehicle_part"), "VehiclePart");
    assert_eq!(to_pascal_case("maintenance_record"), "MaintenanceRecord");
}

#[test]
fn test_parse_has_one_relation_type() {
    let ty = wrapped_entity("HasOne", "profile");
    let result = parse_relation_type(&ty);
    assert!(result.is_some());
    let (rel_type, _, model_name) = result.unwrap();
    assert_eq!(rel_type, RelationType::HasOne);
    assert_eq!(model_name, "Profile");
}

#[test]
fn test_parse_has_many_relation_type() {
    let ty = wrapped_entity("HasMany", "post");
    let result = parse_relation_type(&ty);
    assert!(result.is_some());
    let (rel_type, _, model_name) = result.unwrap();
    assert_eq!(rel_type, RelationType::HasMany);
    assert_eq!(model_name, "Post");
}

#[test]
fn test_parse_non_relation_type() {
    let ty = path_type("String", vec![seg("String")]);
    let result = parse_relation_type(&ty);
    assert!(result.is_none());
}

#[test]
fn test_extract_attr_value() {
    let tokens = r#"has_many, via = "post_tag""#;
    assert_eq!(extract_attr_value(tokens, "via"), Some("post_tag".to_string()));

    let tokens = r#"belongs_to, from = "user_id", to = "id""#;
    assert_eq!(extract_attr_value(tokens, "from"), Some("user_id".to_string()));
    assert_eq!(extract_attr_value(tokens, "to"), Some("id".to_string()));
}

#[test]
fn test_detect_relation_field_has_one() {
    let field = field("profile", wrapped_entity("HasOne", "profile"), vec![sea_orm_attr("has_one")]);

    let info = detect_relation_field(&field);
    assert!(info.is_some());
    let info = info.unwrap();
    assert_eq!(info.field_name, "profile");
    assert_eq!(info.relation_type, RelationType::HasOne);
    assert_eq!(info.related_model_name, "Profile");
}

#[test]
fn test_detect_relation_field_has_many() {
    let field = field("posts", wrapped_entity("HasMany", "post"), vec![sea_orm_attr("has_many")]);

    let info = detect_relation_field(&field);
    assert!(info.is_some());
    let info = info.unwrap();
    assert_eq!(info.field_name, "posts");
    assert_eq!(info.relation_type, RelationType::HasMany);
    assert_eq!(info.related_model_name, "Post");
}

#[test]
fn test_detect_non_relation_field() {
    let field = field("name", path_type("String", vec![seg("String")]), vec![]);

    let info = detect_relation_field(&field);
    assert!(info.is_none());
}

#[test]
fn test_generate_create_field_type_has_one() {
    let info = RelationFieldInfo {
        field_name: "profile".to_string(),
        relation_type: RelationType::HasOne,
        related_entity_path: "super :: profile :: Entity".to_string(),
        related_model_name: "Profile".to_string(),
        foreign_key: None,
    };

    let result = generate_create_field_type(&info);
    assert!(result.to_string().contains("Option"));
    assert!(result.to_string().contains("ProfileCreate"));
}

#[test]
fn test_generate_create_field_type_has_many() {
    let info = RelationFieldInfo {
        field_name: "posts".to_string(),
        relation_type: RelationType::HasMany,
        related_entity_path: "super :: post :: Entity".to_string(),
        related_model_name: "Post".to_string(),
        foreign_key: None,
    };

    let result = generate_create_field_type(&info);
    assert!(result.to_string().contains("Vec"));
    assert!(result.to_string().contains("PostCreate"));
}

#[test]
fn test_should_include_relation_in_create() {
    let has_one_info = RelationFieldInfo {
        field_name: "profile".to_string(),
        relation_type: RelationType::HasOne,
        related_entity_path: String::new(),
        related_model_name: "Profile".to_string(),
        foreign_key: None,
    };
    assert!(should_include_relation_in_create(&has_one_info));

    let belongs_to_info = RelationFieldInfo {
        field_name: "user".to_string(),
        relation_type: RelationType::BelongsTo,
        related_entity_path: String::new(),
        related_model_name: "User".to_string(),
        foreign_key: Some(ForeignKeyInfo {
            from_column: "user_id".to_string(),
            to_column: "id".to_string(),
        }),
    };
    assert!(!should_include_relation_in_create(&belongs_to_info));
}

// ---------------------------------------------------------------------------
// Model names
// ---------------------------------------------------------------------------

#[test]
fn model_name_uses_segment_before_first_entity() {
    let ty = path_type(
        "crate :: models :: user_profile :: Entity",
        vec![seg("crate"), seg("models"), seg("user_profile"), seg("Entity")],
    );
    assert_eq!(extract_model_name_from_entity_path(&ty), "UserProfile");
}

#[test]
fn model_name_falls_back_to_last_segment() {
    let ty = path_type("fruit_basket", vec![seg("fruit_basket")]);
    assert_eq!(extract_model_name_from_entity_path(&ty), "FruitBasket");
}

#[test]
fn model_name_of_lone_entity_is_unknown() {
    let ty = path_type("Entity", vec![seg("Entity")]);
    assert_eq!(extract_model_name_from_entity_path(&ty), "Unknown");
}

#[test]
fn model_name_of_non_path_type_is_unknown() {
    let ty = TypeModel { tokens: "& str".to_string(), path: None };
    assert_eq!(extract_model_name_from_entity_path(&ty), "Unknown");
}

// ---------------------------------------------------------------------------
// Case conversion
// ---------------------------------------------------------------------------

#[test]
fn pascal_case_drops_every_underscore() {
    assert_eq!(to_pascal_case("__a__b_"), "AB");
    assert_eq!(to_pascal_case(""), "");
    assert_eq!(to_pascal_case("_"), "");
}

#[test]
fn pascal_case_keeps_inner_characters() {
    assert_eq!(to_pascal_case("hTTP_sERVER"), "HTTPSERVER");
    assert_eq!(to_pascal_case("v2_api"), "V2Api");
}

#[test]
fn pascal_case_uses_unicode_uppercase() {
    assert_eq!(to_pascal_case("ßa"), "SSa");
    assert_eq!(to_pascal_case("élan_vital"), "ÉlanVital");
}

// ---------------------------------------------------------------------------
// Attribute values
// ---------------------------------------------------------------------------

#[test]
fn attr_value_accepts_single_quotes() {
    assert_eq!(extract_attr_value("has_many, via = 'post_tag'", "via"), Some("post_tag".to_string()));
}

#[test]
fn attr_value_missing_name_is_none() {
    assert_eq!(extract_attr_value("has_many", "via"), None);
}

#[test]
fn attr_value_unclosed_quote_is_none() {
    assert_eq!(extract_attr_value("via = \"post_tag", "via"), None);
}

#[test]
fn attr_value_first_occurrence_counts() {
    assert_eq!(extract_attr_value("via = \"a\", via = \"b\"", "via"), Some("a".to_string()));
}

#[test]
fn attr_value_falls_back_to_single_quotes_after_unclosed_double() {
    assert_eq!(extract_attr_value("to = 'x', to = \"y", "to"), Some("x".to_string()));
}

#[test]
fn attr_value_reads_back_written_value_example() {
    let text = format!("{} = \"{}\"{}", "from", "user_id", ", to = \"id\"");
    assert_eq!(extract_attr_value(&text, "from"), Some("user_id".to_string()));
}

// ---------------------------------------------------------------------------
// Attribute-driven relations
// ---------------------------------------------------------------------------

#[test]
fn attrs_many_to_many_via() {
    let f = field("tags", wrapped_entity("HasMany", "tag"), vec![sea_orm_attr("has_many , via = \"post_tag\"")]);
    let (rt, fk) = parse_sea_orm_relation_attrs(&f);
    assert_eq!(rt, Some(RelationType::HasManyVia { via: "post_tag".to_string() }));
    assert_eq!(fk, None);
    let info = detect_relation_field(&f).unwrap();
    assert_eq!(info.relation_type, RelationType::HasManyVia { via: "post_tag".to_string() });
    assert_eq!(info.related_model_name, "Tag");
}

#[test]
fn attrs_belongs_to_with_foreign_key() {
    let ty = wrapped_entity("Option", "user");
    let f = field("user", ty, vec![sea_orm_attr("belongs_to , from = \"user_id\" , to = \"id\"")]);
    let info = detect_relation_field(&f).unwrap();
    assert_eq!(info.relation_type, RelationType::BelongsTo);
    assert_eq!(info.related_model_name, "User");
    assert_eq!(info.related_entity_path, "super :: user :: Entity");
    assert_eq!(
        info.foreign_key,
        Some(ForeignKeyInfo { from_column: "user_id".to_string(), to_column: "id".to_string() })
    );
}

#[test]
fn attrs_belongs_to_without_columns_has_no_foreign_key() {
    let f = field("user", wrapped_entity("Option", "user"), vec![sea_orm_attr("belongs_to")]);
    let info = detect_relation_field(&f).unwrap();
    assert_eq!(info.relation_type, RelationType::BelongsTo);
    assert_eq!(info.foreign_key, None);
}

#[test]
fn attrs_self_ref_with_reverse() {
    let f = field(
        "children",
        wrapped_entity("HasMany", "category"),
        vec![sea_orm_attr("self_ref , via = \"category_parent\" , reverse")],
    );
    let info = detect_relation_field(&f).unwrap();
    assert_eq!(
        info.relation_type,
        RelationType::SelfRef { via: Some("category_parent".to_string()), reverse: true }
    );
}

#[test]
fn attrs_later_attribute_overrides_earlier() {
    let f = field(
        "profile",
        wrapped_entity("HasMany", "profile"),
        vec![sea_orm_attr("has_many"), sea_orm_attr("has_one")],
    );
    assert_eq!(detect_relation_field(&f).unwrap().relation_type, RelationType::HasOne);
}

#[test]
fn attrs_other_paths_are_ignored() {
    let other = AttrModel { path_ident: Some("serde".to_string()), list_tokens: Some("has_one".to_string()) };
    let word = AttrModel { path_ident: Some("sea_orm".to_string()), list_tokens: None };
    let f = field("profile", wrapped_entity("Option", "profile"), vec![other, word]);
    assert_eq!(parse_sea_orm_relation_attrs(&f), (None, None));
    assert!(detect_relation_field(&f).is_none());
    assert!(!is_relation_field(&f));
}

#[test]
fn boxed_option_entity_is_unwrapped() {
    let inner = wrapped_entity("Box", "user");
    let ty = path_type(&format!("Option < {} >", inner.tokens), vec![seg_of("Option", inner)]);
    let (rt, path, name) = extract_entity_from_option_type(&ty).unwrap();
    assert_eq!(rt, RelationType::BelongsTo);
    assert_eq!(path, "super :: user :: Entity");
    assert_eq!(name, "User");
}

#[test]
fn attribute_relation_without_option_type_is_not_detected() {
    let f = field("user", entity("user"), vec![sea_orm_attr("belongs_to")]);
    assert!(detect_relation_field(&f).is_none());
}

#[test]
fn unnamed_field_is_not_a_relation() {
    let mut f = field("profile", wrapped_entity("HasOne", "profile"), vec![]);
    f.ident = None;
    assert!(detect_relation_field(&f).is_none());
    assert!(!is_relation_field(&f));
}

#[test]
fn has_one_type_is_detected_without_attributes() {
    let f = field("profile", wrapped_entity("HasOne", "profile"), vec![]);
    assert!(is_relation_field(&f));
    let info = detect_relation_field(&f).unwrap();
    assert_eq!(info.relation_type, RelationType::HasOne);
    assert_eq!(info.related_entity_path, "super :: profile :: Entity");
}

// ---------------------------------------------------------------------------
// Field types
// ---------------------------------------------------------------------------

#[test]
fn create_field_types() {
    let t = generate_create_field_type(&info("user", RelationType::BelongsTo, "User"));
    assert_eq!(t.wrapper, TypeWrapper::OptionBox);
    assert_eq!(t.to_string(), "Option<Box<User>>");
    let t = generate_create_field_type(&info("p", RelationType::HasOne, "Profile"));
    assert_eq!(t.to_string(), "Option<Box<ProfileCreate>>");
    let t = generate_create_field_type(&info("t", RelationType::HasManyVia { via: "pt".to_string() }, "Tag"));
    assert_eq!(t.to_string(), "Option<Vec<TagCreate>>");
    let t = generate_create_field_type(&info("c", RelationType::SelfRef { via: None, reverse: false }, "Category"));
    assert_eq!(t.to_string(), "Option<Vec<CategoryCreate>>");
}

#[test]
fn update_field_types() {
    let t = generate_update_field_type(&info("user", RelationType::BelongsTo, "User"));
    assert_eq!(t.to_string(), "Option<Option<Box<User>>>");
    let t = generate_update_field_type(&info("p", RelationType::HasOne, "Profile"));
    assert_eq!(t.wrapper, TypeWrapper::OptionOptionBox);
    assert_eq!(t.to_string(), "Option<Option<Box<ProfileUpdate>>>");
    let t = generate_update_field_type(&info("posts", RelationType::HasMany, "Post"));
    assert_eq!(t.to_string(), "Option<Vec<PostUpdate>>");
}

#[test]
fn create_and_update_types_agree_example() {
    for rt in [
        RelationType::HasOne,
        RelationType::HasMany,
        RelationType::BelongsTo,
        RelationType::HasManyVia { via: "x".to_string() },
        RelationType::SelfRef { via: None, reverse: true },
    ] {
        let i = info("f", rt, "M");
        let c = generate_create_field_type(&i);
        let u = generate_update_field_type(&i);
        assert_eq!(c.wrapper == TypeWrapper::OptionVec, u.wrapper == TypeWrapper::OptionVec);
        assert_eq!(c.wrapper == TypeWrapper::OptionBox, u.wrapper == TypeWrapper::OptionOptionBox);
    }
}

#[test]
fn relations_included_in_models() {
    let kinds = [
        (RelationType::HasOne, true, true),
        (RelationType::HasMany, true, true),
        (RelationType::BelongsTo, false, true),
        (RelationType::HasManyVia { via: "x".to_string() }, true, true),
        (RelationType::SelfRef { via: None, reverse: false }, false, false),
    ];
    for (rt, in_create, in_update) in kinds {
        let i = info("f", rt, "M");
        assert_eq!(should_include_relation_in_create(&i), in_create);
        assert_eq!(should_include_relation_in_update(&i), in_update);
        if in_create {
            assert!(should_include_relation_in_update(&i));
        }
    }
}

#[test]
fn pascal_case_joins_words_example() {
    for (a, b) in [("user", "profile"), ("", "x"), ("a_b", "_c"), ("ßa", "")] {
        let joined = format!("{}_{}", a, b);
        assert_eq!(to_pascal_case(&joined), to_pascal_case(a) + &to_pascal_case(b));
    }
}

#[test]
fn pascal_case_on_ascii_is_idempotent_example() {
    for s in ["user_profile", "__a__b_", "hTTP_sERVER", "v2_api", "", "Already"] {
        let once = to_pascal_case(s);
        assert_eq!(to_pascal_case(&once), once);
        assert_eq!(once.chars().count(), s.len() - s.matches('_').count());
    }
}
