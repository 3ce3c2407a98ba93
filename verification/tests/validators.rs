use avro_typegen::schema::{Field, NumericWidth, QualifiedName, Schema};
use avro_typegen::schema_converter::convert_avro_schema;
use avro_typegen::types::{DeclarationBody, ValidatorExpr};
use avro_typegen::validator_converter::{validator_type_of, ValidatorConverter};

fn qn(name: &str) -> QualifiedName {
    QualifiedName { namespace: None, name: name.to_string() }
}

fn field(name: &str, schema: Schema) -> Field {
    Field { name: name.to_string(), schema }
}

#[test]
fn validator_for_user_record_mirrors_field_list() {
    let root = Schema::Record(
        qn("User"),
        vec![
            field("id", Schema::String),
            field("age", Schema::Union(vec![Schema::Null, Schema::Integer(NumericWidth::Bits32)])),
        ],
    );
    let decls = convert_avro_schema(&root, &ValidatorConverter).unwrap();
    assert_eq!(decls.len(), 1);
    assert_eq!(decls[0].name, qn("User"));
    match &decls[0].body {
        DeclarationBody::Validator(ValidatorExpr::Object(props)) => {
            assert_eq!(props.len(), 2);
            assert_eq!(props[0].name, "id");
            assert_eq!(props[0].check, ValidatorExpr::IsString);
            assert_eq!(props[1].name, "age");
            assert_eq!(
                props[1].check,
                ValidatorExpr::OneOf(vec![ValidatorExpr::IsNull, ValidatorExpr::IsNumber])
            );
        }
        other => panic!("expected an object validator body, got {:?}", other),
    }
}

#[test]
fn validator_traversal_shares_nested_before_container_order() {
    let customer = Schema::Record(qn("Customer"), vec![field("name", Schema::String)]);
    let root = Schema::Record(qn("Order"), vec![field("customer", customer)]);
    let decls = convert_avro_schema(&root, &ValidatorConverter).unwrap();
    assert_eq!(decls.len(), 2);
    assert_eq!(decls[0].name, qn("Customer"));
    assert_eq!(decls[1].name, qn("Order"));
    match &decls[1].body {
        DeclarationBody::Validator(ValidatorExpr::Object(props)) => {
            assert_eq!(props[0].check, ValidatorExpr::RefTo("Customer".to_string()));
        }
        other => panic!("expected an object validator body, got {:?}", other),
    }
}

#[test]
fn validator_mapping_spot_checks() {
    assert_eq!(validator_type_of(&Schema::Bytes), ValidatorExpr::IsByteArray);
    assert_eq!(validator_type_of(&Schema::LogicalUuid), ValidatorExpr::IsString);
    assert_eq!(
        validator_type_of(&Schema::LogicalTimestampMillis),
        ValidatorExpr::IsDateTime
    );
    assert_eq!(
        validator_type_of(&Schema::MapOf(Box::new(Schema::Boolean))),
        ValidatorExpr::StringMapOf(Box::new(ValidatorExpr::IsBoolean))
    );
    assert_eq!(
        validator_type_of(&Schema::Enum(qn("Flag"), vec!["ON".to_string(), "OFF".to_string()])),
        ValidatorExpr::LiteralOneOf(vec!["ON".to_string(), "OFF".to_string()])
    );
    assert_eq!(
        validator_type_of(&Schema::Array(Box::new(Schema::FloatingPoint(
            NumericWidth::Bits64
        )))),
        ValidatorExpr::ArrayOf(Box::new(ValidatorExpr::IsNumber))
    );
}
