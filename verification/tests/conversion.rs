use avro_typegen::errors::GenerationError;
use avro_typegen::schema::{Field, NumericWidth, QualifiedName, Schema};
use avro_typegen::schema_converter::convert_avro_schema;
use avro_typegen::type_converter::TypeConverter;
use avro_typegen::types::{DeclarationBody, KeywordKind, TypeExpr};

fn qn(name: &str) -> QualifiedName {
    QualifiedName { namespace: None, name: name.to_string() }
}

fn field(name: &str, schema: Schema) -> Field {
    Field { name: name.to_string(), schema }
}

#[test]
fn top_level_string_rejected() {
    let r = convert_avro_schema(&Schema::String, &TypeConverter);
    assert!(matches!(r, Err(GenerationError::UnsupportedSchemaKind)));
}

#[test]
fn top_level_union_rejected() {
    let root = Schema::Union(vec![Schema::Null, Schema::String]);
    let r = convert_avro_schema(&root, &TypeConverter);
    assert!(matches!(r, Err(GenerationError::UnsupportedSchemaKind)));
}

#[test]
fn user_record_end_to_end() {
    let root = Schema::Record(
        qn("User"),
        vec![
            field("id", Schema::String),
            field("age", Schema::Union(vec![Schema::Null, Schema::Integer(NumericWidth::Bits32)])),
        ],
    );
    let decls = convert_avro_schema(&root, &TypeConverter).unwrap();
    assert_eq!(decls.len(), 1);
    assert_eq!(decls[0].name, qn("User"));
    match &decls[0].body {
        DeclarationBody::Interface(members) => {
            assert_eq!(members.len(), 2);
            assert_eq!(members[0].name, "id");
            assert_eq!(members[0].type_expr, TypeExpr::Keyword(KeywordKind::String));
            assert_eq!(members[1].name, "age");
            assert_eq!(
                members[1].type_expr,
                TypeExpr::UnionOf(vec![
                    TypeExpr::Keyword(KeywordKind::Null),
                    TypeExpr::Keyword(KeywordKind::Number),
                ])
            );
        }
        other => panic!("expected an interface body, got {:?}", other),
    }
}

#[test]
fn nested_record_declared_before_container() {
    let customer = Schema::Record(qn("Customer"), vec![field("name", Schema::String)]);
    let root = Schema::Record(qn("Order"), vec![field("customer", customer)]);
    let decls = convert_avro_schema(&root, &TypeConverter).unwrap();
    assert_eq!(decls.len(), 2);
    assert_eq!(decls[0].name, qn("Customer"));
    assert_eq!(decls[1].name, qn("Order"));
    match &decls[1].body {
        DeclarationBody::Interface(members) => {
            assert_eq!(members.len(), 1);
            assert_eq!(members[0].name, "customer");
            assert_eq!(members[0].type_expr, TypeExpr::Reference("Customer".to_string()));
        }
        other => panic!("expected an interface body, got {:?}", other),
    }
}

#[test]
fn two_runs_are_identical() {
    let root = Schema::Record(
        qn("Event"),
        vec![
            field("kind", Schema::Enum(qn("Kind"), vec!["A".to_string(), "B".to_string()])),
            field("payload", Schema::MapOf(Box::new(Schema::Bytes))),
        ],
    );
    let first = convert_avro_schema(&root, &TypeConverter).unwrap();
    let second = convert_avro_schema(&root, &TypeConverter).unwrap();
    assert_eq!(first, second);
}

#[test]
fn field_order_is_preserved() {
    let root = Schema::Record(
        qn("Row"),
        vec![
            field("c", Schema::Boolean),
            field("a", Schema::String),
            field("b", Schema::Bytes),
        ],
    );
    let decls = convert_avro_schema(&root, &TypeConverter).unwrap();
    assert_eq!(decls.len(), 1);
    match &decls[0].body {
        DeclarationBody::Interface(members) => {
            let names: Vec<&str> = members.iter().map(|m| m.name.as_str()).collect();
            assert_eq!(names, vec!["c", "a", "b"]);
        }
        other => panic!("expected an interface body, got {:?}", other),
    }
}

#[test]
fn shared_record_declared_once_at_first_encounter() {
    let point = || {
        Schema::Record(
            qn("Point"),
            vec![
                field("x", Schema::Integer(NumericWidth::Bits64)),
                field("y", Schema::Integer(NumericWidth::Bits64)),
            ],
        )
    };
    let root = Schema::Record(
        qn("Shape"),
        vec![
            field("corners", Schema::Array(Box::new(point()))),
            field("lookup", Schema::MapOf(Box::new(point()))),
        ],
    );
    let decls = convert_avro_schema(&root, &TypeConverter).unwrap();
    let names: Vec<&str> = decls.iter().map(|d| d.name.name.as_str()).collect();
    assert_eq!(names, vec!["Point", "Shape"]);
}

#[test]
fn same_name_different_namespace_declared_twice() {
    let a = Schema::Record(
        QualifiedName { namespace: Some("left".to_string()), name: "Item".to_string() },
        vec![field("v", Schema::String)],
    );
    let b = Schema::Record(
        QualifiedName { namespace: Some("right".to_string()), name: "Item".to_string() },
        vec![field("v", Schema::Boolean)],
    );
    let root = Schema::Record(qn("Pair"), vec![field("a", a), field("b", b)]);
    let decls = convert_avro_schema(&root, &TypeConverter).unwrap();
    assert_eq!(decls.len(), 3);
    assert_eq!(decls[0].name.namespace.as_deref(), Some("left"));
    assert_eq!(decls[1].name.namespace.as_deref(), Some("right"));
    assert_eq!(decls[2].name, qn("Pair"));
}

#[test]
fn self_referential_record_terminates() {
    let inner = Schema::Record(qn("Node"), vec![]);
    let root = Schema::Record(qn("Node"), vec![field("next", inner)]);
    let decls = convert_avro_schema(&root, &TypeConverter).unwrap();
    assert_eq!(decls.len(), 1);
    assert_eq!(decls[0].name, qn("Node"));
    match &decls[0].body {
        DeclarationBody::Interface(members) => {
            assert_eq!(members.len(), 1);
            assert_eq!(members[0].name, "next");
            assert_eq!(members[0].type_expr, TypeExpr::Reference("Node".to_string()));
        }
        other => panic!("expected an interface body, got {:?}", other),
    }
}

#[test]
fn mutually_referential_records_terminate() {
    let a_stub = Schema::Record(qn("Alpha"), vec![]);
    let b = Schema::Record(qn("Beta"), vec![field("back", a_stub)]);
    let root = Schema::Record(qn("Alpha"), vec![field("fwd", b)]);
    let decls = convert_avro_schema(&root, &TypeConverter).unwrap();
    let names: Vec<&str> = decls.iter().map(|d| d.name.name.as_str()).collect();
    assert_eq!(names, vec!["Beta", "Alpha"]);
}

#[test]
fn union_variants_collected_in_order() {
    let first = Schema::Record(qn("First"), vec![field("v", Schema::Null)]);
    let second = Schema::Record(qn("Second"), vec![field("v", Schema::Null)]);
    let root = Schema::Record(
        qn("Holder"),
        vec![field("either", Schema::Union(vec![first, second]))],
    );
    let decls = convert_avro_schema(&root, &TypeConverter).unwrap();
    let names: Vec<&str> = decls.iter().map(|d| d.name.name.as_str()).collect();
    assert_eq!(names, vec!["First", "Second", "Holder"]);
}

#[test]
fn empty_record_yields_empty_interface() {
    let root = Schema::Record(qn("Unit"), vec![]);
    let decls = convert_avro_schema(&root, &TypeConverter).unwrap();
    assert_eq!(decls.len(), 1);
    assert_eq!(decls[0].body, DeclarationBody::Interface(vec![]));
}

#[test]
fn record_nested_in_arrays_and_maps_is_collected() {
    let leaf = Schema::Record(qn("Leaf"), vec![field("v", Schema::String)]);
    let deep = Schema::Array(Box::new(Schema::MapOf(Box::new(Schema::Array(Box::new(leaf))))));
    let root = Schema::Record(qn("Forest"), vec![field("grid", deep)]);
    let decls = convert_avro_schema(&root, &TypeConverter).unwrap();
    let names: Vec<&str> = decls.iter().map(|d| d.name.name.as_str()).collect();
    assert_eq!(names, vec!["Leaf", "Forest"]);
}

#[test]
fn enum_and_fixed_contribute_no_declarations() {
    let root = Schema::Record(
        qn("Packet"),
        vec![
            field("kind", Schema::Enum(qn("Kind"), vec!["A".to_string()])),
            field("checksum", Schema::Fixed(qn("Checksum"), 4)),
        ],
    );
    let decls = convert_avro_schema(&root, &TypeConverter).unwrap();
    assert_eq!(decls.len(), 1);
    assert_eq!(decls[0].name, qn("Packet"));
}
