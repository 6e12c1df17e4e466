use composite_def::{
    CompositeDefError, CompositeDefFieldType, CompositeDefFields, Field, GeneratedTypeDerives,
    TypeDef, TypeDefPrimitive, TypeGenerator, TypeParameter, TypePath,
};

fn s(text: &str) -> String {
    text.to_string()
}

fn registry() -> TypeGenerator {
    let mut type_gen = TypeGenerator::new(GeneratedTypeDerives::new(vec![s("Debug")]));
    type_gen.insert_type(1, TypePath::new(s("u8"), false), TypeDef::Primitive(TypeDefPrimitive::U8));
    type_gen.insert_type(2, TypePath::new(s("u32"), true), TypeDef::Compact);
    type_gen.insert_type(3, TypePath::new(s("root::Foo"), false), TypeDef::Composite);
    type_gen.insert_type(4, TypePath::new(s("u128"), false), TypeDef::Primitive(TypeDefPrimitive::U128));
    type_gen
}

fn named(name: &str, type_id: u32, ty_name: Option<&str>) -> Field {
    Field::new(Some(s(name)), type_id, ty_name.map(s))
}

fn unnamed(type_id: u32, ty_name: Option<&str>) -> Field {
    Field::new(None, type_id, ty_name.map(s))
}

fn plain(path: &str) -> CompositeDefFieldType {
    CompositeDefFieldType::new(0, TypePath::new(s(path), false), None)
}

fn compact(path: &str) -> CompositeDefFieldType {
    CompositeDefFieldType::new(0, TypePath::new(s(path), true), None)
}

#[test]
fn no_fields_from_empty_metadata() {
    let fields = CompositeDefFields::from_scale_info_fields("Unit", &[], &[], &registry()).unwrap();
    assert!(matches!(fields, CompositeDefFields::NoFields));
    assert!(fields.field_types().is_empty());
}

#[test]
fn no_fields_render_only_the_marker() {
    let fields = CompositeDefFields::NoFields;
    assert_eq!(fields.to_struct_field_tokens(None, None), "");
    assert_eq!(fields.to_struct_field_tokens(None, Some(&s("pub"))), "");
    assert_eq!(
        fields.to_struct_field_tokens(Some(s("::core::marker::PhantomData<T>")), Some(&s("pub"))),
        "(::core::marker::PhantomData<T>)"
    );
    assert_eq!(fields.to_enum_variant_field_tokens(), "");
}

#[test]
fn named_fields_keep_their_order() {
    let raw = [
        named("first", 1, Some("u8")),
        named("second", 3, Some("Foo")),
        named("third", 2, None),
    ];
    let fields = CompositeDefFields::from_scale_info_fields("S", &raw, &[], &registry()).unwrap();
    match &fields {
        CompositeDefFields::Named(list) => {
            assert_eq!(list.len(), 3);
            assert_eq!(list[0].0, "first");
            assert_eq!(list[0].1.type_id, 1);
            assert_eq!(list[0].1.type_path.path, "u8");
            assert_eq!(list[0].1.ty_name, Some(s("u8")));
            assert_eq!(list[1].0, "second");
            assert_eq!(list[1].1.type_id, 3);
            assert_eq!(list[1].1.type_path.path, "root::Foo");
            assert_eq!(list[2].0, "third");
            assert_eq!(list[2].1.type_id, 2);
            assert!(list[2].1.type_path.compact);
            assert_eq!(list[2].1.ty_name, None);
        },
        other => panic!("expected named fields, got {:?}", other),
    }
    let types = fields.field_types();
    assert_eq!(types.len(), 3);
    assert_eq!(types[0].type_id, 1);
    assert_eq!(types[1].type_id, 3);
    assert_eq!(types[2].type_id, 2);
}

#[test]
fn unnamed_fields_keep_their_order() {
    let raw = [unnamed(3, Some("Foo")), unnamed(1, None), unnamed(4, Some("u128"))];
    let fields = CompositeDefFields::from_scale_info_fields("S", &raw, &[], &registry()).unwrap();
    match &fields {
        CompositeDefFields::Unnamed(list) => {
            assert_eq!(list.len(), 3);
            assert_eq!(list[0].type_id, 3);
            assert_eq!(list[0].type_path.path, "root::Foo");
            assert_eq!(list[0].ty_name, Some(s("Foo")));
            assert_eq!(list[1].type_id, 1);
            assert_eq!(list[1].type_path.path, "u8");
            assert_eq!(list[2].type_id, 4);
            assert_eq!(list[2].type_path.path, "u128");
        },
        other => panic!("expected unnamed fields, got {:?}", other),
    }
    let types = fields.field_types();
    assert_eq!(types.len(), 3);
    assert_eq!(types[0].type_id, 3);
    assert_eq!(types[2].type_id, 4);
}

#[test]
fn field_types_can_be_asked_again() {
    let raw = [unnamed(1, None), unnamed(3, None)];
    let fields = CompositeDefFields::from_scale_info_fields("S", &raw, &[], &registry()).unwrap();
    let first = fields.field_types();
    let second = fields.field_types();
    assert_eq!(first.len(), 2);
    assert_eq!(second.len(), 2);
    assert_eq!(first[1].type_id, second[1].type_id);
}

#[test]
fn mixed_naming_is_refused() {
    let raw = [named("a", 1, None), unnamed(1, None)];
    let error = CompositeDefFields::from_scale_info_fields("Broken", &raw, &[], &registry())
        .unwrap_err();
    match &error {
        CompositeDefError::MixedFieldNaming { name } => assert_eq!(name, "Broken"),
    }
    assert_eq!(
        error.message(),
        "'Broken': Fields should either be all named or all unnamed."
    );
}

#[test]
fn mixed_naming_is_refused_in_either_order() {
    let raw = [unnamed(1, None), unnamed(3, None), named("late", 1, None)];
    let result = CompositeDefFields::from_scale_info_fields("Late", &raw, &[], &registry());
    assert!(matches!(
        result,
        Err(CompositeDefError::MixedFieldNaming { ref name }) if name == "Late"
    ));
}

#[test]
fn parameter_type_resolves_to_the_parameter() {
    let params = [TypeParameter::new(3, s("T"), s("_0"))];
    let raw = [named("value", 3, Some("T")), named("count", 1, Some("u8"))];
    let fields =
        CompositeDefFields::from_scale_info_fields("S", &raw, &params, &registry()).unwrap();
    match &fields {
        CompositeDefFields::Named(list) => {
            assert_eq!(list[0].1.type_path.path, "_0");
            assert!(!list[0].1.type_path.compact);
            assert_eq!(list[1].1.type_path.path, "u8");
        },
        other => panic!("expected named fields, got {:?}", other),
    }
}

#[test]
fn first_matching_parameter_wins() {
    let params = [
        TypeParameter::new(9, s("A"), s("_0")),
        TypeParameter::new(3, s("B"), s("_1")),
        TypeParameter::new(3, s("C"), s("_2")),
    ];
    let type_gen = registry();
    assert_eq!(type_gen.resolve_type_path(3, &params).path, "_1");
    assert_eq!(type_gen.resolve_type_path(1, &params).path, "u8");
    assert!(type_gen.resolves(9, &params));
    assert!(type_gen.resolves(1, &params));
    assert!(!type_gen.resolves(77, &params));
    assert!(!type_gen.resolves(9, &[]));
}

#[test]
fn registry_keeps_the_last_registration() {
    let mut type_gen = registry();
    assert!(type_gen.contains_type(1));
    assert!(!type_gen.contains_type(50));
    assert_eq!(type_gen.resolve_type_def(1), Some(TypeDef::Primitive(TypeDefPrimitive::U8)));
    assert_eq!(type_gen.resolve_type_def(50), None);
    type_gen.insert_type(1, TypePath::new(s("other::U8"), true), TypeDef::Composite);
    assert_eq!(type_gen.resolve_type_def(1), Some(TypeDef::Composite));
    let path = type_gen.resolve_type_path(1, &[]);
    assert_eq!(path.path, "other::U8");
    assert!(path.is_compact());
    assert_eq!(type_gen.resolve_type_def(3), Some(TypeDef::Composite));
    assert_eq!(type_gen.derives().derives, vec![s("Debug")]);
}

#[test]
fn boxed_goes_by_the_type_name() {
    let boxed = CompositeDefFieldType::new(1, TypePath::new(s("u8"), false), Some(s("Box<u8>")));
    assert!(boxed.is_boxed());
    let inner = CompositeDefFieldType::new(1, TypePath::new(s("u8"), false), Some(s("Option<Box<T>>")));
    assert!(inner.is_boxed());
    let lookalike = CompositeDefFieldType::new(1, TypePath::new(s("u8"), false), Some(s("MyBox<u8>")));
    assert!(lookalike.is_boxed());
    let plain_name = CompositeDefFieldType::new(1, TypePath::new(s("Box<u8>"), false), Some(s("u8")));
    assert!(!plain_name.is_boxed());
    let spaced = CompositeDefFieldType::new(1, TypePath::new(s("u8"), false), Some(s("Box <u8>")));
    assert!(!spaced.is_boxed());
    let bare = CompositeDefFieldType::new(1, TypePath::new(s("u8"), false), Some(s("Box")));
    assert!(!bare.is_boxed());
    let nameless = CompositeDefFieldType::new(1, TypePath::new(s("Box<u8>"), false), None);
    assert!(!nameless.is_boxed());
    let empty = CompositeDefFieldType::new(1, TypePath::new(s("u8"), false), Some(s("")));
    assert!(!empty.is_boxed());
}

#[test]
fn boxed_goes_by_characters() {
    let accented = CompositeDefFieldType::new(
        1,
        TypePath::new(s("u8"), false),
        Some(s("Caf\u{e9}<Box<u8>>")),
    );
    assert!(accented.is_boxed());
    let split = CompositeDefFieldType::new(
        1,
        TypePath::new(s("u8"), false),
        Some(s("Bo\u{e9}x<u8>")),
    );
    assert!(!split.is_boxed());
}

#[test]
fn boxed_field_is_wrapped() {
    let boxed = CompositeDefFieldType::new(
        1,
        TypePath::new(s("root::Tree"), false),
        Some(s("Box<Tree>")),
    );
    let mut tokens = s("x: ");
    boxed.to_tokens(&mut tokens);
    assert_eq!(tokens, "x: ::std::boxed::Box<root::Tree>");

    let direct = CompositeDefFieldType::new(1, TypePath::new(s("root::Tree"), false), Some(s("Tree")));
    let mut tokens = String::new();
    direct.to_tokens(&mut tokens);
    assert_eq!(tokens, "root::Tree");
}

#[test]
fn compact_attr_follows_the_type_path() {
    assert_eq!(compact("u32").compact_attr(), Some(s("#[codec(compact)]")));
    assert_eq!(plain("u32").compact_attr(), None);
}

#[test]
fn struct_named_fields_tokens() {
    let fields = CompositeDefFields::Named(vec![
        (s("a"), plain("u8")),
        (s("b"), compact("u32")),
    ]);
    assert_eq!(
        fields.to_struct_field_tokens(None, None),
        "{ a: u8, #[codec(compact)] b: u32, }"
    );
    assert_eq!(
        fields.to_struct_field_tokens(None, Some(&s("pub"))),
        "{ pub a: u8, #[codec(compact)] pub b: u32, }"
    );
    assert_eq!(
        fields.to_struct_field_tokens(Some(s("::core::marker::PhantomData<T>")), Some(&s("pub"))),
        "{ pub a: u8, #[codec(compact)] pub b: u32, #[codec(skip)] pub __subxt_unused_type_params: ::core::marker::PhantomData<T> }"
    );
    assert_eq!(
        fields.to_struct_field_tokens(Some(s("::core::marker::PhantomData<T>")), None),
        "{ a: u8, #[codec(compact)] b: u32, #[codec(skip)] __subxt_unused_type_params: ::core::marker::PhantomData<T> }"
    );
}

#[test]
fn struct_unnamed_fields_tokens() {
    let fields = CompositeDefFields::Unnamed(vec![compact("u64"), plain("root::Foo")]);
    assert_eq!(
        fields.to_struct_field_tokens(None, None),
        "(#[codec(compact)] u64, root::Foo, )"
    );
    assert_eq!(
        fields.to_struct_field_tokens(None, Some(&s("pub(crate)"))),
        "(#[codec(compact)] pub(crate) u64, pub(crate) root::Foo, )"
    );
    assert_eq!(
        fields.to_struct_field_tokens(Some(s("::core::marker::PhantomData<(A, B)>")), Some(&s("pub"))),
        "(#[codec(compact)] pub u64, pub root::Foo, #[codec(skip)] pub ::core::marker::PhantomData<(A, B)>)"
    );
}

#[test]
fn variant_fields_tokens() {
    let named = CompositeDefFields::Named(vec![
        (s("to"), plain("AccountId")),
        (s("value"), compact("u128")),
    ]);
    assert_eq!(
        named.to_enum_variant_field_tokens(),
        "{ to: AccountId, #[codec(compact)] value: u128, }"
    );
    let unnamed = CompositeDefFields::Unnamed(vec![compact("u128"), plain("AccountId")]);
    assert_eq!(
        unnamed.to_enum_variant_field_tokens(),
        "(#[codec(compact)] u128, AccountId, )"
    );
}

#[test]
fn variant_fields_are_struct_fields_without_extras() {
    let lists = [
        CompositeDefFields::NoFields,
        CompositeDefFields::Named(vec![(s("a"), compact("u8")), (s("b"), plain("u16"))]),
        CompositeDefFields::Unnamed(vec![plain("u8"), compact("u16")]),
    ];
    for fields in &lists {
        assert_eq!(
            fields.to_enum_variant_field_tokens(),
            fields.to_struct_field_tokens(None, None)
        );
    }
}

#[test]
fn compact_attr_marks_only_its_own_field() {
    let fields = CompositeDefFields::Unnamed(vec![plain("A"), compact("B"), plain("C")]);
    assert_eq!(
        fields.to_struct_field_tokens(None, None),
        "(A, #[codec(compact)] B, C, )"
    );
    assert_eq!(fields.to_enum_variant_field_tokens(), "(A, #[codec(compact)] B, C, )");
    let fields = CompositeDefFields::Unnamed(vec![plain("A"), plain("B"), plain("C")]);
    assert_eq!(fields.to_struct_field_tokens(None, None), "(A, B, C, )");
}

#[test]
fn empty_lists_render_as_empty_groups() {
    let named = CompositeDefFields::Named(vec![]);
    assert_eq!(named.to_struct_field_tokens(None, None), "{ }");
    assert_eq!(named.to_enum_variant_field_tokens(), "{ }");
    let unnamed = CompositeDefFields::Unnamed(vec![]);
    assert_eq!(unnamed.to_struct_field_tokens(None, None), "()");
    assert_eq!(unnamed.to_enum_variant_field_tokens(), "()");
    assert!(named.field_types().is_empty());
}
