use vstd::prelude::*;
use vstd::string::StringExecFns;
use crate::registry::Registry;
use crate::schema::{
    Field, FieldV, QualifiedName, QualifiedNameV, Schema, SchemaV, clone_qualified_name,
    field_view, fields_view, lemma_fields_view, lemma_schemas_view, qname_view, schema_view,
    schemas_view, strings_view,
};
use crate::schema_converter::{DeclarationBuilder, SchemaConverter, convert_record_with};
use crate::types::{
    Declaration, DeclarationBody, DeclarationBodyV, DeclarationV, GenerationResult,
    ValidatorExpr, ValidatorExprV, ValidatorProperty, ValidatorPropertyV, validator_expr_view,
    validator_exprs_view, validator_properties_view, validator_property_view,
};

verus! {

/// The validator strategy's mapping table, parallel to the interface
/// strategy's: each schema kind maps to the check a runtime value of that
/// kind must pass.
pub open spec fn spec_validator_type(s: SchemaV) -> ValidatorExprV
    decreases s,
{
    match s {
        SchemaV::Null => ValidatorExprV::IsNull,
        SchemaV::Boolean => ValidatorExprV::IsBoolean,
        SchemaV::Integer(_) => ValidatorExprV::IsNumber,
        SchemaV::FloatingPoint(_) => ValidatorExprV::IsNumber,
        SchemaV::Bytes => ValidatorExprV::IsByteArray,
        SchemaV::String => ValidatorExprV::IsString,
        SchemaV::LogicalDate => ValidatorExprV::IsString,
        SchemaV::LogicalTimeMillis => ValidatorExprV::IsString,
        SchemaV::LogicalTimeMicros => ValidatorExprV::IsString,
        SchemaV::LogicalTimestampMillis => ValidatorExprV::IsDateTime,
        SchemaV::LogicalTimestampMicros => ValidatorExprV::IsDateTime,
        SchemaV::LogicalDuration => ValidatorExprV::IsString,
        SchemaV::LogicalUuid => ValidatorExprV::IsString,
        SchemaV::LogicalDecimal(_, _) => ValidatorExprV::IsString,
        SchemaV::Array(item) => ValidatorExprV::ArrayOf(Box::new(spec_validator_type(*item))),
        SchemaV::MapOf(value) => ValidatorExprV::StringMapOf(
            Box::new(spec_validator_type(*value)),
        ),
        SchemaV::Union(variants) => ValidatorExprV::OneOf(spec_validator_types(variants)),
        SchemaV::Record(name, _) => ValidatorExprV::RefTo(name.name),
        SchemaV::Enum(_, symbols) => ValidatorExprV::LiteralOneOf(symbols),
        SchemaV::Fixed(_, _) => ValidatorExprV::IsByteArray,
    }
}

pub open spec fn spec_validator_types(ss: Seq<SchemaV>) -> Seq<ValidatorExprV>
    decreases ss,
{
    if ss.len() == 0 {
        Seq::empty()
    } else {
        spec_validator_types(ss.drop_last()).push(spec_validator_type(ss.last()))
    }
}

/// The checked properties of the object validator for a record: one per
/// field, in field order.
pub open spec fn spec_validator_properties(fields: Seq<FieldV>) -> Seq<ValidatorPropertyV>
    decreases fields,
{
    if fields.len() == 0 {
        Seq::empty()
    } else {
        spec_validator_properties(fields.drop_last()).push(
            ValidatorPropertyV {
                name: fields.last().name,
                check: spec_validator_type(fields.last().schema),
            },
        )
    }
}

/// The validator binding declared for one record.
pub open spec fn spec_validator_declaration(
    name: QualifiedNameV,
    fields: Seq<FieldV>,
) -> DeclarationV {
    DeclarationV {
        name: name,
        body: DeclarationBodyV::Validator(
            ValidatorExprV::Object(spec_validator_properties(fields)),
        ),
    }
}

pub proof fn lemma_spec_validator_properties(fields: Seq<FieldV>)
    ensures
        spec_validator_properties(fields).len() == fields.len(),
        forall|i: int|
            0 <= i < fields.len() ==> spec_validator_properties(fields)[i]
                == (ValidatorPropertyV {
                name: fields[i].name,
                check: spec_validator_type(fields[i].schema),
            }),
    decreases fields,
{
    if fields.len() > 0 {
        lemma_spec_validator_properties(fields.drop_last());
    }
}

/// The runtime-validator strategy: each record becomes an exported validator
/// binding whose object check mirrors the record's field list.
pub struct ValidatorConverter;

impl DeclarationBuilder for ValidatorConverter {
    open spec fn spec_declaration(name: QualifiedNameV, fields: Seq<FieldV>) -> DeclarationV {
        spec_validator_declaration(name, fields)
    }

    #[verifier::loop_isolation(false)]
    fn record_declaration(&self, name: &QualifiedName, fields: &Vec<Field>) -> (d: Declaration) {
        let mut properties: Vec<ValidatorProperty> = Vec::new();
        let mut i: usize = 0;
        proof {
            lemma_fields_view(fields@);
        }
        while i < fields.len()
            invariant
                i <= fields@.len(),
                validator_properties_view(properties@) == spec_validator_properties(
                    fields_view(fields@).take(i as int),
                ),
            decreases fields@.len() - i,
        {
            let ghost properties_before = properties@;
            let ghost fvs = fields_view(fields@);
            let p = ValidatorProperty {
                name: fields[i].name.clone(),
                check: validator_type_of(&fields[i].schema),
            };
            properties.push(p);
            proof {
                assert(properties@.drop_last() =~= properties_before);
                assert(properties@.last() == p);
                assert(fvs.take(i + 1).drop_last() =~= fvs.take(i as int));
                assert(fvs.take(i + 1).last() == field_view(fields@[i as int]));
                assert(validator_property_view(p) == (ValidatorPropertyV {
                    name: field_view(fields@[i as int]).name,
                    check: spec_validator_type(field_view(fields@[i as int]).schema),
                }));
            }
            i += 1;
        }
        proof {
            assert(fields_view(fields@).take(fields@.len() as int) =~= fields_view(fields@));
        }
        Declaration {
            name: clone_qualified_name(name),
            body: DeclarationBody::Validator(ValidatorExpr::Object(properties)),
        }
    }
}

impl SchemaConverter for ValidatorConverter {
    type TypeOutput = ValidatorExpr;

    fn convert_record(
        &self,
        name: &QualifiedName,
        fields: &Vec<Field>,
        registry: &mut Registry,
    ) -> (r: GenerationResult) {
        convert_record_with(self, name, fields, registry)
    }

    fn convert_type(&self, schema: &Schema) -> (t: ValidatorExpr)
        ensures
            validator_expr_view(t) == spec_validator_type(schema_view(*schema)),
    {
        validator_type_of(schema)
    }
}

/// Maps one schema node to its runtime check, following the validator
/// mapping table exactly.
#[verifier::loop_isolation(false)]
pub fn validator_type_of(schema: &Schema) -> (t: ValidatorExpr)
    ensures
        validator_expr_view(t) == spec_validator_type(schema_view(*schema)),
    decreases *schema,
{
    match schema {
        Schema::Null => ValidatorExpr::IsNull,
        Schema::Boolean => ValidatorExpr::IsBoolean,
        Schema::Integer(_) => ValidatorExpr::IsNumber,
        Schema::FloatingPoint(_) => ValidatorExpr::IsNumber,
        Schema::Bytes => ValidatorExpr::IsByteArray,
        Schema::String => ValidatorExpr::IsString,
        Schema::LogicalDate => ValidatorExpr::IsString,
        Schema::LogicalTimeMillis => ValidatorExpr::IsString,
        Schema::LogicalTimeMicros => ValidatorExpr::IsString,
        Schema::LogicalTimestampMillis => ValidatorExpr::IsDateTime,
        Schema::LogicalTimestampMicros => ValidatorExpr::IsDateTime,
        Schema::LogicalDuration => ValidatorExpr::IsString,
        Schema::LogicalUuid => ValidatorExpr::IsString,
        Schema::LogicalDecimal(_, _) => ValidatorExpr::IsString,
        Schema::Array(item) => ValidatorExpr::ArrayOf(Box::new(validator_type_of(&**item))),
        Schema::MapOf(value) => ValidatorExpr::StringMapOf(
            Box::new(validator_type_of(&**value)),
        ),
        Schema::Union(variants) => {
            let mut out: Vec<ValidatorExpr> = Vec::new();
            let mut i: usize = 0;
            proof {
                lemma_schemas_view(variants@);
            }
            while i < variants.len()
                invariant
                    i <= variants@.len(),
                    validator_exprs_view(out@) == spec_validator_types(
                        schemas_view(variants@).take(i as int),
                    ),
                decreases variants@.len() - i,
            {
                let ghost out_before = out@;
                let ghost svs = schemas_view(variants@);
                let t = validator_type_of(&variants[i]);
                out.push(t);
                proof {
                    assert(out@.drop_last() =~= out_before);
                    assert(out@.last() == t);
                    assert(svs.take(i + 1).drop_last() =~= svs.take(i as int));
                    assert(svs.take(i + 1).last() == schema_view(variants@[i as int]));
                }
                i += 1;
            }
            proof {
                assert(schemas_view(variants@).take(variants@.len() as int) =~= schemas_view(
                    variants@,
                ));
            }
            ValidatorExpr::OneOf(out)
        },
        Schema::Record(name, _) => ValidatorExpr::RefTo(name.name.clone()),
        Schema::Enum(_, symbols) => {
            let mut literals: Vec<String> = Vec::new();
            let mut i: usize = 0;
            while i < symbols.len()
                invariant
                    i <= symbols@.len(),
                    literals@.len() == i,
                    forall|j: int| 0 <= j < i ==> literals@[j] == symbols@[j],
                decreases symbols@.len() - i,
            {
                literals.push(symbols[i].clone());
                i += 1;
            }
            proof {
                assert(literals@ =~= symbols@);
                assert(strings_view(literals@) =~= strings_view(symbols@));
            }
            ValidatorExpr::LiteralOneOf(literals)
        },
        Schema::Fixed(_, _) => ValidatorExpr::IsByteArray,
    }
}

} // verus!
