//! Tests of the record transform: merging additional fields, shape
//! mismatches, visibility and name substitution, and the annotation filter.

use optfield::attrs;
use optfield::generate::generate;
use optfield::model::{
    Attr, AttrRule, AttributeRules, ConfigError, ErrorKind, Field, FieldsAddition, Owner, Record,
    RecordShape, Segment, Span, TransformConfig, TypeDesc, Visibility,
};

fn plain_ty(name: &str) -> TypeDesc {
    TypeDesc::Path {
        segments: vec![Segment { name: name.to_string(), args: vec![] }],
    }
}

fn option_of(inner: TypeDesc) -> TypeDesc {
    TypeDesc::Path {
        segments: vec![Segment { name: "Option".to_string(), args: vec![inner] }],
    }
}

fn named_field(name: &str, ty: TypeDesc) -> Field {
    Field {
        name: Some(name.to_string()),
        ty,
        vis: Visibility::Inherited,
        attrs: vec![],
    }
}

fn unnamed_field(ty: TypeDesc) -> Field {
    Field { name: None, ty, vis: Visibility::Inherited, attrs: vec![] }
}

fn attr(text: &str) -> Attr {
    Attr { text: text.to_string() }
}

fn keep_rules() -> AttributeRules {
    AttributeRules { record: AttrRule::Keep, field: AttrRule::Keep }
}

fn base_record(fields: Vec<Field>) -> Record {
    Record {
        name: "S".to_string(),
        vis: Visibility::Inherited,
        generics: vec![],
        attrs: vec![],
        shape: RecordShape::NamedFields { fields },
    }
}

fn base_config(name: &str) -> TransformConfig {
    TransformConfig {
        name: name.to_string(),
        visibility: None,
        additional_fields: None,
        rewrap: false,
        attribute_rules: keep_rules(),
    }
}

#[test]
fn addition_becomes_whole_field_list_of_unit_record() {
    let original = Record {
        name: "S".to_string(),
        vis: Visibility::Inherited,
        generics: vec![],
        attrs: vec![],
        shape: RecordShape::NoFields,
    };
    let mut config = base_config("Opt");
    config.additional_fields = Some(FieldsAddition {
        shape: RecordShape::NamedFields {
            fields: vec![
                named_field("a", plain_ty("i32")),
                named_field("b", option_of(plain_ty("u8"))),
            ],
        },
        span: Span { lo: 10, hi: 20 },
    });

    let generated = generate(config, original).expect("transform failed");

    assert_eq!(
        generated.shape,
        RecordShape::NamedFields {
            fields: vec![
                named_field("a", option_of(plain_ty("i32"))),
                named_field("b", option_of(plain_ty("u8"))),
            ],
        }
    );
}

#[test]
fn named_additions_are_appended_after_originals() {
    let original = base_record(vec![
        named_field("a", plain_ty("i32")),
        named_field("b", plain_ty("u8")),
    ]);
    let mut config = base_config("Opt");
    config.additional_fields = Some(FieldsAddition {
        shape: RecordShape::NamedFields {
            fields: vec![
                named_field("c", plain_ty("u16")),
                named_field("d", plain_ty("u32")),
            ],
        },
        span: Span { lo: 0, hi: 0 },
    });

    let generated = generate(config, original).expect("transform failed");

    match generated.shape {
        RecordShape::NamedFields { fields } => {
            assert_eq!(fields.len(), 4);
            let names: Vec<String> = fields.into_iter().map(|f| f.name.unwrap()).collect();
            assert_eq!(names, vec!["a", "b", "c", "d"]);
        }
        _ => panic!("expected named fields"),
    }
}

#[test]
fn empty_addition_is_a_no_op() {
    let original = base_record(vec![named_field("a", plain_ty("i32"))]);
    let mut config = base_config("Opt");
    config.additional_fields = Some(FieldsAddition {
        shape: RecordShape::NoFields,
        span: Span { lo: 3, hi: 4 },
    });

    let generated = generate(config, original).expect("transform failed");

    assert_eq!(
        generated.shape,
        RecordShape::NamedFields { fields: vec![named_field("a", option_of(plain_ty("i32")))] }
    );
}

#[test]
fn unnamed_addition_to_named_record_is_a_shape_mismatch() {
    let original = base_record(vec![named_field("a", plain_ty("i32"))]);
    let mut config = base_config("Opt");
    config.additional_fields = Some(FieldsAddition {
        shape: RecordShape::UnnamedFields { fields: vec![unnamed_field(plain_ty("u8"))] },
        span: Span { lo: 42, hi: 57 },
    });

    let generated = generate(config, original);

    let err = generated.expect_err("expected a shape mismatch");
    assert_eq!(
        err,
        ConfigError { kind: ErrorKind::ExpectedNamedFields, span: Span { lo: 42, hi: 57 } }
    );
    assert_eq!(err.message(), "Expected named fields");
}

#[test]
fn named_addition_to_unnamed_record_is_a_shape_mismatch() {
    let original = Record {
        name: "S".to_string(),
        vis: Visibility::Inherited,
        generics: vec![],
        attrs: vec![],
        shape: RecordShape::UnnamedFields { fields: vec![unnamed_field(plain_ty("u8"))] },
    };
    let mut config = base_config("Opt");
    config.additional_fields = Some(FieldsAddition {
        shape: RecordShape::NamedFields { fields: vec![named_field("a", plain_ty("i32"))] },
        span: Span { lo: 7, hi: 9 },
    });

    let err = generate(config, original).expect_err("expected a shape mismatch");
    assert_eq!(
        err,
        ConfigError { kind: ErrorKind::ExpectedUnnamedFields, span: Span { lo: 7, hi: 9 } }
    );
    assert_eq!(err.message(), "Expected unnamed fields");
}

#[test]
fn visibility_override_wins_on_record_and_every_field() {
    let mut fields = vec![
        named_field("a", plain_ty("i32")),
        named_field("b", plain_ty("u8")),
    ];
    fields[0].vis = Visibility::Crate;
    let original = base_record(fields);
    let mut config = base_config("Opt");
    config.visibility = Some(Visibility::Public);

    let generated = generate(config, original).expect("transform failed");

    assert_eq!(generated.vis, Visibility::Public);
    match generated.shape {
        RecordShape::NamedFields { fields } => {
            for field in fields {
                assert_eq!(field.vis, Visibility::Public);
            }
        }
        _ => panic!("expected named fields"),
    }
}

#[test]
fn name_is_substituted_and_visibility_inherited_without_override() {
    let mut original = base_record(vec![named_field("a", plain_ty("i32"))]);
    original.vis = Visibility::Crate;
    original.generics = vec!["T".to_string(), "U".to_string()];
    let config = base_config("Opt");

    let generated = generate(config, original).expect("transform failed");

    assert_eq!(generated.name, "Opt");
    assert_eq!(generated.vis, Visibility::Crate);
    assert_eq!(generated.generics, vec!["T".to_string(), "U".to_string()]);
}

#[test]
fn kept_annotations_preserve_order_and_added_ones_follow() {
    let mut original = base_record(vec![named_field("a", plain_ty("i32"))]);
    original.attrs = vec![attr("derive(Debug)"), attr("doc = \"a record\"")];
    let mut config = base_config("Opt");
    config.attribute_rules = AttributeRules {
        record: AttrRule::Add { attrs: vec![attr("derive(Default)")] },
        field: AttrRule::Keep,
    };

    let generated = generate(config, original).expect("transform failed");

    assert_eq!(
        generated.attrs,
        vec![
            attr("derive(Debug)"),
            attr("doc = \"a record\""),
            attr("derive(Default)"),
        ]
    );
}

#[test]
fn removed_and_replaced_annotations() {
    let mut field = named_field("a", plain_ty("i32"));
    field.attrs = vec![attr("doc = \"kept?\"")];
    let mut original = base_record(vec![field]);
    original.attrs = vec![attr("derive(Debug)")];
    let mut config = base_config("Opt");
    config.attribute_rules = AttributeRules {
        record: AttrRule::Remove,
        field: AttrRule::Replace { attrs: vec![attr("non_exhaustive")] },
    };

    let generated = generate(config, original).expect("transform failed");

    assert_eq!(generated.attrs, vec![]);
    match generated.shape {
        RecordShape::NamedFields { fields } => {
            assert_eq!(fields[0].attrs, vec![attr("non_exhaustive")]);
        }
        _ => panic!("expected named fields"),
    }
}

#[test]
fn filter_is_scoped_by_owner() {
    let existing = vec![attr("derive(Debug)")];
    let rules = AttributeRules {
        record: AttrRule::Keep,
        field: AttrRule::Remove,
    };

    assert_eq!(attrs::generate(Owner::Record, &existing, &rules), existing);
    assert_eq!(attrs::generate(Owner::Field, &existing, &rules), vec![]);
}
