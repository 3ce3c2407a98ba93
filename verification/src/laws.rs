use vstd::prelude::*;
use crate::schema::{FieldV, QualifiedNameV, SchemaV};
use crate::schema_converter::{
    RecordSig, SchemaConverter, spec_collect, spec_collect_fields, spec_collect_variants,
    spec_convert_record, spec_convert_schema,
};
use crate::type_converter::{
    lemma_spec_interface_members, spec_interface_declaration, spec_interface_type,
};
use crate::types::{DeclarationV, TypeExprV};
use crate::validator_converter::{
    lemma_spec_validator_properties, spec_validator_declaration, spec_validator_type,
};

verus! {

/// Determinism: the outcome of a conversion is a function of the schema
/// value alone. Any two declaration sequences that a strategy's contract
/// admits for the same root schema are identical.
pub proof fn lemma_conversion_deterministic<C: SchemaConverter>(
    s: SchemaV,
    a: Seq<DeclarationV>,
    b: Seq<DeclarationV>,
)
    requires
        a.len() == spec_convert_schema(s).len(),
        forall|j: int|
            0 <= j < a.len() ==> #[trigger] a[j] == C::spec_declaration(
                spec_convert_schema(s)[j].name,
                spec_convert_schema(s)[j].fields,
            ),
        b.len() == spec_convert_schema(s).len(),
        forall|j: int|
            0 <= j < b.len() ==> #[trigger] b[j] == C::spec_declaration(
                spec_convert_schema(s)[j].name,
                spec_convert_schema(s)[j].fields,
            ),
    ensures
        a == b,
{
    assert(a =~= b);
}

/// Field-order preservation: the interface declared for a record has
/// exactly one member per field, in field order; the member keeps the
/// field's name and carries the field's mapped type.
pub proof fn lemma_field_order_preserved(name: QualifiedNameV, fields: Seq<FieldV>)
    ensures
        spec_interface_declaration(name, fields).body is Interface,
        spec_interface_declaration(name, fields).body->Interface_0.len() == fields.len(),
        forall|i: int|
            0 <= i < fields.len() ==> {
                let members = spec_interface_declaration(name, fields).body->Interface_0;
                members[i].name == (#[trigger] fields[i]).name && members[i].type_expr
                    == spec_interface_type(fields[i].schema)
            },
{
    lemma_spec_interface_members(fields);
}

/// The validator strategy mirrors the same field list: its object check has
/// one property per field, in field order, keeping the field's name and
/// carrying the field's mapped check.
pub proof fn lemma_validator_property_order(name: QualifiedNameV, fields: Seq<FieldV>)
    ensures
        spec_validator_declaration(name, fields).body is Validator,
        spec_validator_declaration(name, fields).body->Validator_0 is Object,
        spec_validator_declaration(name, fields).body->Validator_0->Object_0.len()
            == fields.len(),
        forall|i: int|
            0 <= i < fields.len() ==> {
                let props = spec_validator_declaration(name, fields).body->Validator_0->Object_0;
                props[i].name == (#[trigger] fields[i]).name && props[i].check
                    == spec_validator_type(fields[i].schema)
            },
{
    lemma_spec_validator_properties(fields);
}

/// The collector declares a name at most once: everything it returns is
/// newly registered, was not yet visited, and is pairwise distinct by name.
pub proof fn lemma_collect_unique(s: SchemaV, visited: Set<QualifiedNameV>)
    ensures
        ({
            let (rs, vs) = spec_collect(s, visited);
            visited.subset_of(vs) && (forall|i: int|
                0 <= i < rs.len() ==> vs.contains(#[trigger] rs[i].name) && !visited.contains(
                    rs[i].name,
                )) && (forall|i: int, j: int|
                0 <= i < j < rs.len() ==> rs[i].name != rs[j].name)
        }),
    decreases s, 0int,
{
    match s {
        SchemaV::Array(item) => {
            lemma_collect_unique(*item, visited);
        },
        SchemaV::MapOf(value) => {
            lemma_collect_unique(*value, visited);
        },
        SchemaV::Union(variants) => {
            lemma_collect_variants_unique(variants, visited);
        },
        SchemaV::Record(name, fields) => {
            if !visited.contains(name) {
                lemma_convert_record_unique(name, fields, visited);
            }
        },
        _ => {},
    }
}

pub proof fn lemma_collect_variants_unique(
    variants: Seq<SchemaV>,
    visited: Set<QualifiedNameV>,
)
    ensures
        ({
            let (rs, vs) = spec_collect_variants(variants, visited);
            visited.subset_of(vs) && (forall|i: int|
                0 <= i < rs.len() ==> vs.contains(#[trigger] rs[i].name) && !visited.contains(
                    rs[i].name,
                )) && (forall|i: int, j: int|
                0 <= i < j < rs.len() ==> rs[i].name != rs[j].name)
        }),
    decreases variants, 0int,
{
    if variants.len() > 0 {
        lemma_collect_variants_unique(variants.drop_last(), visited);
        let (rs1, v1) = spec_collect_variants(variants.drop_last(), visited);
        lemma_collect_unique(variants.last(), v1);
    }
}

pub proof fn lemma_collect_fields_unique(fields: Seq<FieldV>, visited: Set<QualifiedNameV>)
    ensures
        ({
            let (rs, vs) = spec_collect_fields(fields, visited);
            visited.subset_of(vs) && (forall|i: int|
                0 <= i < rs.len() ==> vs.contains(#[trigger] rs[i].name) && !visited.contains(
                    rs[i].name,
                )) && (forall|i: int, j: int|
                0 <= i < j < rs.len() ==> rs[i].name != rs[j].name)
        }),
    decreases fields, 0int,
{
    if fields.len() > 0 {
        lemma_collect_fields_unique(fields.drop_last(), visited);
        let (rs1, v1) = spec_collect_fields(fields.drop_last(), visited);
        lemma_collect_unique(fields.last().schema, v1);
    }
}

pub proof fn lemma_convert_record_unique(
    name: QualifiedNameV,
    fields: Seq<FieldV>,
    visited: Set<QualifiedNameV>,
)
    ensures
        ({
            let (rs, vs) = spec_convert_record(name, fields, visited);
            visited.insert(name).subset_of(vs) && rs.len() >= 1 && rs.last() == (RecordSig {
                name,
                fields,
            }) && (forall|i: int|
                0 <= i < rs.len() ==> vs.contains(#[trigger] rs[i].name)) && (forall|i: int|
                0 <= i < rs.len() - 1 ==> !visited.insert(name).contains(
                    #[trigger] rs[i].name,
                )) && (forall|i: int, j: int|
                0 <= i < j < rs.len() ==> rs[i].name != rs[j].name)
        }),
    decreases fields, 1int,
{
    lemma_collect_fields_unique(fields, visited.insert(name));
}

/// Named-type uniqueness: over a whole top-level conversion, each qualified
/// name is declared exactly once, however many paths reach it.
pub proof fn lemma_declared_names_unique(s: SchemaV)
    ensures
        ({
            let rs = spec_convert_schema(s);
            forall|i: int, j: int| 0 <= i < j < rs.len() ==> rs[i].name != rs[j].name
        }),
{
    if let SchemaV::Record(name, fields) = s {
        lemma_convert_record_unique(name, fields, Set::<QualifiedNameV>::empty());
    }
}

/// The same uniqueness carried to the interface strategy's declarations,
/// whose names are the records' own.
pub proof fn lemma_interface_declaration_names_unique(s: SchemaV)
    ensures
        ({
            let rs = spec_convert_schema(s);
            forall|i: int, j: int|
                0 <= i < j < rs.len() ==> spec_interface_declaration(
                    rs[i].name,
                    rs[i].fields,
                ).name != spec_interface_declaration(rs[j].name, rs[j].fields).name
        }),
{
    lemma_declared_names_unique(s);
}

/// Cycle termination: a record whose fields all refer back to the record
/// itself converts to exactly one declaration, the record's own, and each
/// self-referencing field maps to a reference to the record by name, not to
/// an expanded type.
pub proof fn lemma_self_reference_single_declaration(name: QualifiedNameV, fields: Seq<FieldV>)
    requires
        forall|i: int|
            0 <= i < fields.len() ==> (#[trigger] fields[i].schema) is Record
                && fields[i].schema->Record_0 == name,
    ensures
        spec_convert_schema(SchemaV::Record(name, fields)) =~= seq![
            RecordSig { name, fields },
        ],
        forall|i: int|
            0 <= i < fields.len() ==> spec_interface_type(#[trigger] fields[i].schema)
                == TypeExprV::Reference(name.name),
{
    lemma_self_reference_fields_empty(name, fields, fields.len() as int);
    assert(fields.take(fields.len() as int) =~= fields);
    let visited = Set::<QualifiedNameV>::empty().insert(name);
    let (rs, vs) = spec_collect_fields(fields, visited);
    assert(rs =~= Seq::<RecordSig>::empty());
    assert(spec_convert_record(name, fields, Set::<QualifiedNameV>::empty()).0 =~= rs.push(
        RecordSig { name, fields },
    ));
}

/// Helper for the cycle-termination law: fields that only refer back to an
/// already-registered name contribute no nested declarations.
proof fn lemma_self_reference_fields_empty(
    name: QualifiedNameV,
    fields: Seq<FieldV>,
    n: int,
)
    requires
        0 <= n <= fields.len(),
        forall|i: int|
            0 <= i < fields.len() ==> (#[trigger] fields[i].schema) is Record
                && fields[i].schema->Record_0 == name,
    ensures
        ({
            let (rs, vs) = spec_collect_fields(
                fields.take(n),
                Set::<QualifiedNameV>::empty().insert(name),
            );
            rs =~= Seq::<RecordSig>::empty() && vs == Set::<QualifiedNameV>::empty().insert(
                name,
            )
        }),
    decreases n,
{
    let visited = Set::<QualifiedNameV>::empty().insert(name);
    if n > 0 {
        lemma_self_reference_fields_empty(name, fields, n - 1);
        assert(fields.take(n).drop_last() =~= fields.take(n - 1));
        assert(fields.take(n).last() == fields[n - 1]);
        assert(fields[n - 1].schema is Record && fields[n - 1].schema->Record_0 == name);
        let (rs1, v1) = spec_collect_fields(fields.take(n - 1), visited);
        let (rs2, v2) = spec_collect(fields[n - 1].schema, v1);
        assert(v1 == visited);
        assert(v1.contains(name));
        assert(rs2 =~= Seq::<RecordSig>::empty() && v2 == v1);
        assert(spec_collect_fields(fields.take(n), visited).0 =~= rs1 + rs2);
    }
}

} // verus!
