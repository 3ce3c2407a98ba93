use avro_typegen::errors::GenerationError;
use avro_typegen::registry::Registry;
use avro_typegen::schema::{
    clone_qualified_name, qualified_name_eq, NumericWidth, QualifiedName, Schema,
};
use avro_typegen::type_converter::interface_type_of;
use avro_typegen::types::{KeywordKind, TypeExpr};

fn qn(name: &str) -> QualifiedName {
    QualifiedName { namespace: None, name: name.to_string() }
}

#[test]
fn primitive_kinds_map_to_keywords() {
    assert_eq!(interface_type_of(&Schema::Null), TypeExpr::Keyword(KeywordKind::Null));
    assert_eq!(interface_type_of(&Schema::Boolean), TypeExpr::Keyword(KeywordKind::Boolean));
    assert_eq!(interface_type_of(&Schema::String), TypeExpr::Keyword(KeywordKind::String));
}

#[test]
fn every_numeric_width_maps_to_number() {
    assert_eq!(
        interface_type_of(&Schema::Integer(NumericWidth::Bits32)),
        TypeExpr::Keyword(KeywordKind::Number)
    );
    assert_eq!(
        interface_type_of(&Schema::Integer(NumericWidth::Bits64)),
        TypeExpr::Keyword(KeywordKind::Number)
    );
    assert_eq!(
        interface_type_of(&Schema::FloatingPoint(NumericWidth::Bits32)),
        TypeExpr::Keyword(KeywordKind::Number)
    );
    assert_eq!(
        interface_type_of(&Schema::FloatingPoint(NumericWidth::Bits64)),
        TypeExpr::Keyword(KeywordKind::Number)
    );
}

#[test]
fn bytes_and_fixed_map_to_byte_array_reference() {
    assert_eq!(
        interface_type_of(&Schema::Bytes),
        TypeExpr::Reference("Uint8Array".to_string())
    );
    assert_eq!(
        interface_type_of(&Schema::Fixed(qn("Digest"), 16)),
        TypeExpr::Reference("Uint8Array".to_string())
    );
}

#[test]
fn stringly_logical_kinds_map_to_string_keyword() {
    for s in [
        Schema::LogicalDate,
        Schema::LogicalTimeMillis,
        Schema::LogicalTimeMicros,
        Schema::LogicalDuration,
        Schema::LogicalUuid,
        Schema::LogicalDecimal(10, 2),
    ] {
        assert_eq!(interface_type_of(&s), TypeExpr::Keyword(KeywordKind::String));
    }
}

#[test]
fn timestamps_map_to_date_reference() {
    assert_eq!(
        interface_type_of(&Schema::LogicalTimestampMillis),
        TypeExpr::Reference("Date".to_string())
    );
    assert_eq!(
        interface_type_of(&Schema::LogicalTimestampMicros),
        TypeExpr::Reference("Date".to_string())
    );
}

#[test]
fn array_maps_to_array_of_item() {
    assert_eq!(
        interface_type_of(&Schema::Array(Box::new(Schema::String))),
        TypeExpr::ArrayOf(Box::new(TypeExpr::Keyword(KeywordKind::String)))
    );
}

#[test]
fn map_maps_to_string_keyed_generic_reference() {
    assert_eq!(
        interface_type_of(&Schema::MapOf(Box::new(Schema::Boolean))),
        TypeExpr::GenericReference(
            "Record".to_string(),
            vec![
                TypeExpr::Keyword(KeywordKind::String),
                TypeExpr::Keyword(KeywordKind::Boolean),
            ],
        )
    );
}

#[test]
fn union_with_null_keeps_declared_variant_order() {
    assert_eq!(
        interface_type_of(&Schema::Union(vec![Schema::Null, Schema::String])),
        TypeExpr::UnionOf(vec![
            TypeExpr::Keyword(KeywordKind::Null),
            TypeExpr::Keyword(KeywordKind::String),
        ])
    );
}

#[test]
fn union_keeps_duplicates() {
    assert_eq!(
        interface_type_of(&Schema::Union(vec![Schema::String, Schema::String])),
        TypeExpr::UnionOf(vec![
            TypeExpr::Keyword(KeywordKind::String),
            TypeExpr::Keyword(KeywordKind::String),
        ])
    );
}

#[test]
fn enum_maps_to_three_member_string_literal_union() {
    let color = Schema::Enum(
        qn("Color"),
        vec!["RED".to_string(), "GREEN".to_string(), "BLUE".to_string()],
    );
    assert_eq!(
        interface_type_of(&color),
        TypeExpr::StringLiteralUnion(vec![
            "RED".to_string(),
            "GREEN".to_string(),
            "BLUE".to_string(),
        ])
    );
}

#[test]
fn record_maps_to_reference_by_simple_name() {
    let rec = Schema::Record(
        QualifiedName { namespace: Some("ns".to_string()), name: "Thing".to_string() },
        vec![],
    );
    assert_eq!(interface_type_of(&rec), TypeExpr::Reference("Thing".to_string()));
}

#[test]
fn registry_remembers_inserted_names() {
    let mut reg = Registry::new();
    assert!(!reg.contains(&qn("A")));
    reg.insert(qn("A"));
    assert!(reg.contains(&qn("A")));
    assert!(!reg.contains(&qn("B")));
    reg.insert(qn("A"));
    assert!(reg.contains(&qn("A")));
}

#[test]
fn qualified_names_compare_by_namespace_and_name() {
    let plain = qn("X");
    let spaced = QualifiedName { namespace: Some("ns".to_string()), name: "X".to_string() };
    assert!(qualified_name_eq(&plain, &qn("X")));
    assert!(!qualified_name_eq(&plain, &spaced));
    assert!(!qualified_name_eq(&plain, &qn("Y")));
    let copy = clone_qualified_name(&spaced);
    assert!(qualified_name_eq(&copy, &spaced));
}

#[test]
fn error_kinds_describe_themselves() {
    let unsupported = GenerationError::UnsupportedSchemaKind;
    assert_eq!(unsupported.kind_description(), "unsupported schema kind");
    assert!(unsupported.detail().is_none());
    let read = GenerationError::SchemaRead("no such file".to_string());
    assert_eq!(read.kind_description(), "schema read error");
    assert_eq!(read.detail().map(|s| s.as_str()), Some("no such file"));
    let parse = GenerationError::SchemaParse("bad json".to_string());
    assert_eq!(parse.kind_description(), "schema parse error");
    let assembly = GenerationError::TextAssembly("bad bytes".to_string());
    assert_eq!(assembly.kind_description(), "text assembly error");
    assert_eq!(assembly.detail().map(|s| s.as_str()), Some("bad bytes"));
}
