use vstd::prelude::*;
use vstd::string::StringExecFns;
use crate::registry::Registry;
use crate::schema::{
    Field, FieldV, QualifiedName, QualifiedNameV, Schema, SchemaV, clone_qualified_name,
    field_view, fields_view, lemma_fields_view, lemma_schemas_view, qname_view, schema_view,
    schemas_view, strings_view,
};
use crate::schema_converter::{DeclarationBuilder, SchemaConverter, convert_record_with};
use crate::types::{
    Declaration, DeclarationBody, DeclarationBodyV, DeclarationV, GenerationResult, KeywordKind,
    Member, MemberV, TypeExpr, TypeExprV, lemma_type_exprs_view, member_view, members_view,
    type_expr_view, type_exprs_view,
};

verus! {

/// The exact type mapping table: what type expression the structural
/// interface strategy produces for each schema kind. Every numeric kind maps
/// to the number keyword; bytes and fixed map to the byte-array reference;
/// decimal and the stringly logical kinds fall back to the string keyword
/// (the conservative, information-preserving choice); the two timestamp
/// kinds map to the date/time reference; a named record maps to a reference
/// by its simple name.
pub open spec fn spec_interface_type(s: SchemaV) -> TypeExprV
    decreases s,
{
    match s {
        SchemaV::Null => TypeExprV::Keyword(KeywordKind::Null),
        SchemaV::Boolean => TypeExprV::Keyword(KeywordKind::Boolean),
        SchemaV::Integer(_) => TypeExprV::Keyword(KeywordKind::Number),
        SchemaV::FloatingPoint(_) => TypeExprV::Keyword(KeywordKind::Number),
        SchemaV::Bytes => TypeExprV::Reference("Uint8Array"@),
        SchemaV::String => TypeExprV::Keyword(KeywordKind::String),
        SchemaV::LogicalDate => TypeExprV::Keyword(KeywordKind::String),
        SchemaV::LogicalTimeMillis => TypeExprV::Keyword(KeywordKind::String),
        SchemaV::LogicalTimeMicros => TypeExprV::Keyword(KeywordKind::String),
        SchemaV::LogicalTimestampMillis => TypeExprV::Reference("Date"@),
        SchemaV::LogicalTimestampMicros => TypeExprV::Reference("Date"@),
        SchemaV::LogicalDuration => TypeExprV::Keyword(KeywordKind::String),
        SchemaV::LogicalUuid => TypeExprV::Keyword(KeywordKind::String),
        SchemaV::LogicalDecimal(_, _) => TypeExprV::Keyword(KeywordKind::String),
        SchemaV::Array(item) => TypeExprV::ArrayOf(Box::new(spec_interface_type(*item))),
        SchemaV::MapOf(value) => TypeExprV::GenericReference(
            "Record"@,
            seq![TypeExprV::Keyword(KeywordKind::String), spec_interface_type(*value)],
        ),
        SchemaV::Union(variants) => TypeExprV::UnionOf(spec_interface_types(variants)),
        SchemaV::Record(name, _) => TypeExprV::Reference(name.name),
        SchemaV::Enum(_, symbols) => TypeExprV::StringLiteralUnion(symbols),
        SchemaV::Fixed(_, _) => TypeExprV::Reference("Uint8Array"@),
    }
}

pub open spec fn spec_interface_types(ss: Seq<SchemaV>) -> Seq<TypeExprV>
    decreases ss,
{
    if ss.len() == 0 {
        Seq::empty()
    } else {
        spec_interface_types(ss.drop_last()).push(spec_interface_type(ss.last()))
    }
}

/// The members of the interface declared for a record: one per field, in
/// field order, each typed by the mapping table.
pub open spec fn spec_interface_members(fields: Seq<FieldV>) -> Seq<MemberV>
    decreases fields,
{
    if fields.len() == 0 {
        Seq::empty()
    } else {
        spec_interface_members(fields.drop_last()).push(
            MemberV {
                name: fields.last().name,
                type_expr: spec_interface_type(fields.last().schema),
            },
        )
    }
}

/// The interface declaration for one record.
pub open spec fn spec_interface_declaration(
    name: QualifiedNameV,
    fields: Seq<FieldV>,
) -> DeclarationV {
    DeclarationV {
        name: name,
        body: DeclarationBodyV::Interface(spec_interface_members(fields)),
    }
}


pub proof fn lemma_spec_interface_members(fields: Seq<FieldV>)
    ensures
        spec_interface_members(fields).len() == fields.len(),
        forall|i: int|
            0 <= i < fields.len() ==> spec_interface_members(fields)[i] == (MemberV {
                name: fields[i].name,
                type_expr: spec_interface_type(fields[i].schema),
            }),
    decreases fields,
{
    if fields.len() > 0 {
        lemma_spec_interface_members(fields.drop_last());
    }
}

/// The structural-interface strategy: each record becomes an exported
/// interface with one non-optional, non-readonly member per field.
pub struct TypeConverter;

impl DeclarationBuilder for TypeConverter {
    open spec fn spec_declaration(name: QualifiedNameV, fields: Seq<FieldV>) -> DeclarationV {
        spec_interface_declaration(name, fields)
    }

    #[verifier::loop_isolation(false)]
    fn record_declaration(&self, name: &QualifiedName, fields: &Vec<Field>) -> (d: Declaration) {
        let mut members: Vec<Member> = Vec::new();
        let mut i: usize = 0;
        proof {
            lemma_fields_view(fields@);
        }
        while i < fields.len()
            invariant
                i <= fields@.len(),
                members_view(members@) == spec_interface_members(
                    fields_view(fields@).take(i as int),
                ),
            decreases fields@.len() - i,
        {
            let ghost members_before = members@;
            let ghost fvs = fields_view(fields@);
            let m = Member {
                name: fields[i].name.clone(),
                type_expr: interface_type_of(&fields[i].schema),
            };
            members.push(m);
            proof {
                assert(members@.drop_last() =~= members_before);
                assert(members@.last() == m);
                assert(fvs.take(i + 1).drop_last() =~= fvs.take(i as int));
                assert(fvs.take(i + 1).last() == field_view(fields@[i as int]));
                assert(member_view(m) == (MemberV {
                    name: field_view(fields@[i as int]).name,
                    type_expr: spec_interface_type(field_view(fields@[i as int]).schema),
                }));
            }
            i += 1;
        }
        proof {
            assert(fields_view(fields@).take(fields@.len() as int) =~= fields_view(fields@));
        }
        Declaration {
            name: clone_qualified_name(name),
            body: DeclarationBody::Interface(members),
        }
    }
}

impl SchemaConverter for TypeConverter {
    type TypeOutput = TypeExpr;

    fn convert_record(
        &self,
        name: &QualifiedName,
        fields: &Vec<Field>,
        registry: &mut Registry,
    ) -> (r: GenerationResult) {
        convert_record_with(self, name, fields, registry)
    }

    fn convert_type(&self, schema: &Schema) -> (t: TypeExpr)
        ensures
            type_expr_view(t) == spec_interface_type(schema_view(*schema)),
    {
        interface_type_of(schema)
    }
}

/// Maps one schema node to the interface strategy's type expression,
/// following the mapping table exactly.
#[verifier::loop_isolation(false)]
pub fn interface_type_of(schema: &Schema) -> (t: TypeExpr)
    ensures
        type_expr_view(t) == spec_interface_type(schema_view(*schema)),
    decreases *schema,
{
    match schema {
            Schema::Null => TypeExpr::Keyword(KeywordKind::Null),
            Schema::Boolean => TypeExpr::Keyword(KeywordKind::Boolean),
            Schema::Integer(_) => TypeExpr::Keyword(KeywordKind::Number),
            Schema::FloatingPoint(_) => TypeExpr::Keyword(KeywordKind::Number),
            Schema::Bytes => TypeExpr::Reference(String::from_str("Uint8Array")),
            Schema::String => TypeExpr::Keyword(KeywordKind::String),
            Schema::LogicalDate => TypeExpr::Keyword(KeywordKind::String),
            Schema::LogicalTimeMillis => TypeExpr::Keyword(KeywordKind::String),
            Schema::LogicalTimeMicros => TypeExpr::Keyword(KeywordKind::String),
            Schema::LogicalTimestampMillis => TypeExpr::Reference(String::from_str("Date")),
            Schema::LogicalTimestampMicros => TypeExpr::Reference(String::from_str("Date")),
            Schema::LogicalDuration => TypeExpr::Keyword(KeywordKind::String),
            Schema::LogicalUuid => TypeExpr::Keyword(KeywordKind::String),
            Schema::LogicalDecimal(_, _) => TypeExpr::Keyword(KeywordKind::String),
            Schema::Array(item) => TypeExpr::ArrayOf(Box::new(interface_type_of(&**item))),
            Schema::MapOf(value) => {
                let mut params: Vec<TypeExpr> = Vec::new();
                params.push(TypeExpr::Keyword(KeywordKind::String));
                params.push(interface_type_of(&**value));
                let t = TypeExpr::GenericReference(String::from_str("Record"), params);
                proof {
                    lemma_type_exprs_view(params@);
                    assert(type_exprs_view(params@) =~= seq![
                        TypeExprV::Keyword(KeywordKind::String),
                        spec_interface_type(schema_view(**value)),
                    ]);
                }
                t
            },
            Schema::Union(variants) => {
                let mut out: Vec<TypeExpr> = Vec::new();
                let mut i: usize = 0;
                proof {
                    lemma_schemas_view(variants@);
                }
                while i < variants.len()
                    invariant
                        i <= variants@.len(),
                        type_exprs_view(out@) == spec_interface_types(
                            schemas_view(variants@).take(i as int),
                        ),
                    decreases variants@.len() - i,
                {
                    let ghost out_before = out@;
                    let ghost svs = schemas_view(variants@);
                    let t = interface_type_of(&variants[i]);
                    out.push(t);
                    proof {
                        assert(out@.drop_last() =~= out_before);
                        assert(out@.last() == t);
                        assert(svs.take(i + 1).drop_last() =~= svs.take(i as int));
                        assert(svs.take(i + 1).last() == schema_view(variants@[i as int]));
                    }
                    i += 1;
                }
                proof {
                    assert(schemas_view(variants@).take(variants@.len() as int) =~= schemas_view(
                        variants@,
                    ));
                }
                TypeExpr::UnionOf(out)
            },
            Schema::Record(name, _) => TypeExpr::Reference(name.name.clone()),
            Schema::Enum(_, symbols) => {
                let mut literals: Vec<String> = Vec::new();
                let mut i: usize = 0;
                while i < symbols.len()
                    invariant
                        i <= symbols@.len(),
                        literals@.len() == i,
                        forall|j: int| 0 <= j < i ==> literals@[j] == symbols@[j],
                    decreases symbols@.len() - i,
                {
                    literals.push(symbols[i].clone());
                    i += 1;
                }
                proof {
                    assert(literals@ =~= symbols@);
                    assert(strings_view(literals@) =~= strings_view(symbols@));
                }
                TypeExpr::StringLiteralUnion(literals)
            },
            Schema::Fixed(_, _) => TypeExpr::Reference(String::from_str("Uint8Array")),
        }
    }


} // verus!
