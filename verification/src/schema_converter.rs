use vstd::prelude::*;
use crate::errors::GenerationError;
use crate::registry::Registry;
use crate::schema::{
    Field, FieldV, QualifiedName, QualifiedNameV, Schema, SchemaV, clone_qualified_name,
    field_view, fields_view, lemma_fields_view, lemma_schemas_view, qname_view, schema_view,
    schemas_view,
};
use crate::types::{Declaration, DeclarationV, GenerationResult, declaration_view};

verus! {

/// One record the traversal decides to declare: its qualified name and its
/// fields, in the order the record was first encountered. Which declaration
/// a record becomes is the strategy's affair; that it is declared, and when,
/// is decided here once for every strategy.
#[verifier::ext_equal]
pub ghost struct RecordSig {
    pub name: QualifiedNameV,
    pub fields: Seq<FieldV>,
}

/// The declaration-building half of a strategy: what one record becomes.
/// The shared traversal is generic over this capability alone, so that a
/// strategy's other methods may in turn call the traversal.
pub trait DeclarationBuilder: Sized {
    /// The declaration this strategy emits for one record, at the spec level.
    spec fn spec_declaration(name: QualifiedNameV, fields: Seq<FieldV>) -> DeclarationV;

    /// Builds the record's own declaration, without collecting nested ones.
    fn record_declaration(&self, name: &QualifiedName, fields: &Vec<Field>) -> (d: Declaration)
        ensures
            declaration_view(d) == Self::spec_declaration(
                qname_view(*name),
                fields_view(fields@),
            ),
    ;
}

/// The pluggable conversion strategy: one implementation per output backend
/// (structural interfaces, or runtime validators). Strategies are stateless;
/// all mutable state of a conversion run lives in the registry that is
/// threaded through the traversal.
pub trait SchemaConverter: DeclarationBuilder {
    /// The strategy's type-expression output.
    type TypeOutput;

    /// Converts one record: first the declarations of every named type first
    /// encountered inside its fields, then the record's own declaration.
    fn convert_record(
        &self,
        name: &QualifiedName,
        fields: &Vec<Field>,
        registry: &mut Registry,
    ) -> (r: GenerationResult)
        ensures
            r is Ok,
            ({
                let (rs, vs) = spec_convert_record(
                    qname_view(*name),
                    fields_view(fields@),
                    old(registry)@,
                );
                r->Ok_0@.len() == rs.len() && (forall|j: int|
                    0 <= j < rs.len() ==> declaration_view(#[trigger] r->Ok_0@[j])
                        == Self::spec_declaration(rs[j].name, rs[j].fields)) && final(registry)@
                    == vs
            }),
    ;

    /// Maps one schema node to this strategy's type output.
    fn convert_type(&self, schema: &Schema) -> Self::TypeOutput;
}

/// Collecting nested declarations from one schema node: the records to
/// declare, in first-encountered pre-order, and the grown visited set.
pub open spec fn spec_collect(s: SchemaV, visited: Set<QualifiedNameV>) -> (
    Seq<RecordSig>,
    Set<QualifiedNameV>,
)
    decreases s, 0int,
{
    match s {
        SchemaV::Array(item) => spec_collect(*item, visited),
        SchemaV::MapOf(value) => spec_collect(*value, visited),
        SchemaV::Union(variants) => spec_collect_variants(variants, visited),
        SchemaV::Record(name, fields) => if visited.contains(name) {
            (Seq::<RecordSig>::empty(), visited)
        } else {
            spec_convert_record(name, fields, visited)
        },
        SchemaV::Enum(name, _) => (Seq::<RecordSig>::empty(), visited.insert(name)),
        SchemaV::Fixed(name, _) => (Seq::<RecordSig>::empty(), visited.insert(name)),
        _ => (Seq::<RecordSig>::empty(), visited),
    }
}

pub open spec fn spec_collect_variants(
    variants: Seq<SchemaV>,
    visited: Set<QualifiedNameV>,
) -> (Seq<RecordSig>, Set<QualifiedNameV>)
    decreases variants, 0int,
{
    if variants.len() == 0 {
        (Seq::<RecordSig>::empty(), visited)
    } else {
        let (rs1, v1) = spec_collect_variants(variants.drop_last(), visited);
        let (rs2, v2) = spec_collect(variants.last(), v1);
        (rs1 + rs2, v2)
    }
}

pub open spec fn spec_collect_fields(
    fields: Seq<FieldV>,
    visited: Set<QualifiedNameV>,
) -> (Seq<RecordSig>, Set<QualifiedNameV>)
    decreases fields, 0int,
{
    if fields.len() == 0 {
        (Seq::<RecordSig>::empty(), visited)
    } else {
        let (rs1, v1) = spec_collect_fields(fields.drop_last(), visited);
        let (rs2, v2) = spec_collect(fields.last().schema, v1);
        (rs1 + rs2, v2)
    }
}

/// Converting a record registers its name first, collects nested records
/// from its fields in order, then appends the record itself.
pub open spec fn spec_convert_record(
    name: QualifiedNameV,
    fields: Seq<FieldV>,
    visited: Set<QualifiedNameV>,
) -> (Seq<RecordSig>, Set<QualifiedNameV>)
    decreases fields, 1int,
{
    let (rs, v2) = spec_collect_fields(fields, visited.insert(name));
    (rs.push(RecordSig { name, fields }), v2)
}

/// The records a whole top-level conversion of a record schema declares.
pub open spec fn spec_convert_schema(s: SchemaV) -> Seq<RecordSig> {
    match s {
        SchemaV::Record(name, fields) => spec_convert_record(
            name,
            fields,
            Set::<QualifiedNameV>::empty(),
        ).0,
        _ => Seq::<RecordSig>::empty(),
    }
}

/// Collects the declarations of every named type reachable from `schema`
/// that is not yet in the registry, in first-encountered pre-order.
#[verifier::loop_isolation(false)]
pub fn process_nested_records<C: DeclarationBuilder>(
    schema: &Schema,
    converter: &C,
    registry: &mut Registry,
) -> (r: GenerationResult)
    ensures
        r is Ok,
        ({
            let (rs, vs) = spec_collect(schema_view(*schema), old(registry)@);
            r->Ok_0@.len() == rs.len() && (forall|j: int|
                0 <= j < rs.len() ==> declaration_view(#[trigger] r->Ok_0@[j])
                    == C::spec_declaration(rs[j].name, rs[j].fields)) && final(registry)@ == vs
        }),
    decreases *schema, 0int,
{
    match schema {
        Schema::Record(name, fields) => {
            if registry.contains(name) {
                Ok(Vec::new())
            } else {
                convert_record_with(converter, name, fields, registry)
            }
        },
        Schema::Array(item) => process_nested_records(&**item, converter, registry),
        Schema::MapOf(value) => process_nested_records(&**value, converter, registry),
        Schema::Union(variants) => {
            let mut items: Vec<Declaration> = Vec::new();
            let mut i: usize = 0;
            proof {
                lemma_schemas_view(variants@);
            }
            while i < variants.len()
                invariant
                    i <= variants@.len(),
                    ({
                        let (rs, vs) = spec_collect_variants(
                            schemas_view(variants@).take(i as int),
                            old(registry)@,
                        );
                        items@.len() == rs.len() && (forall|j: int|
                            0 <= j < rs.len() ==> declaration_view(#[trigger] items@[j])
                                == C::spec_declaration(rs[j].name, rs[j].fields)) && registry@
                            == vs
                    }),
                decreases variants@.len() - i,
            {
                let ghost items_before = items@;
                let ghost svs = schemas_view(variants@);
                let mut more = match process_nested_records(&variants[i], converter, registry) {
                    Ok(v) => v,
                    Err(e) => return Err(e),
                };
                let ghost more_view = more@;
                items.append(&mut more);
                proof {
                    assert(svs.take(i + 1).drop_last() =~= svs.take(i as int));
                    assert(svs.take(i + 1).last() == schema_view(variants@[i as int]));
                    assert(items@ == items_before + more_view);
                }
                i += 1;
            }
            proof {
                assert(schemas_view(variants@).take(variants@.len() as int) =~= schemas_view(
                    variants@,
                ));
            }
            Ok(items)
        },
        Schema::Enum(name, _) => {
            registry.insert(clone_qualified_name(name));
            Ok(Vec::new())
        },
        Schema::Fixed(name, _) => {
            registry.insert(clone_qualified_name(name));
            Ok(Vec::new())
        },
        _ => Ok(Vec::new()),
    }
}

/// Converts one record for any strategy: registers its name, collects the
/// nested declarations of its fields in order, then appends the record's own
/// declaration built by the strategy. The shared traversal logic of every
/// strategy's `convert_record` lives here.
#[verifier::loop_isolation(false)]
pub fn convert_record_with<C: DeclarationBuilder>(
    converter: &C,
    name: &QualifiedName,
    fields: &Vec<Field>,
    registry: &mut Registry,
) -> (r: GenerationResult)
    ensures
        r is Ok,
        ({
            let (rs, vs) = spec_convert_record(
                qname_view(*name),
                fields_view(fields@),
                old(registry)@,
            );
            r->Ok_0@.len() == rs.len() && (forall|j: int|
                0 <= j < rs.len() ==> declaration_view(#[trigger] r->Ok_0@[j])
                    == C::spec_declaration(rs[j].name, rs[j].fields)) && final(registry)@ == vs
        }),
    decreases *fields, 1int,
{
    registry.insert(clone_qualified_name(name));
    let mut items: Vec<Declaration> = Vec::new();
    let mut i: usize = 0;
    proof {
        lemma_fields_view(fields@);
    }
    while i < fields.len()
        invariant
            i <= fields@.len(),
            ({
                let (rs, vs) = spec_collect_fields(
                    fields_view(fields@).take(i as int),
                    old(registry)@.insert(qname_view(*name)),
                );
                items@.len() == rs.len() && (forall|j: int|
                    0 <= j < rs.len() ==> declaration_view(#[trigger] items@[j])
                        == C::spec_declaration(rs[j].name, rs[j].fields)) && registry@ == vs
            }),
        decreases fields@.len() - i,
    {
        let ghost items_before = items@;
        let ghost fvs = fields_view(fields@);
        let mut more = match process_nested_records(&fields[i].schema, converter, registry) {
            Ok(v) => v,
            Err(e) => return Err(e),
        };
        let ghost more_view = more@;
        items.append(&mut more);
        proof {
            assert(fvs.take(i + 1).drop_last() =~= fvs.take(i as int));
            assert(fvs.take(i + 1).last() == field_view(fields@[i as int]));
            assert(items@ == items_before + more_view);
        }
        i += 1;
    }
    let ghost items_collected = items@;
    let own = converter.record_declaration(name, fields);
    items.push(own);
    proof {
        assert(fields_view(fields@).take(fields@.len() as int) =~= fields_view(fields@));
        assert(items@ == items_collected.push(own));
    }
    Ok(items)
}

/// The top-level conversion entry: requires the root schema to be a record,
/// converts it with a fresh, empty registry, and rejects every other root
/// kind with `UnsupportedSchemaKind`.
pub fn convert_avro_schema<C: SchemaConverter>(schema: &Schema, converter: &C) -> (r:
    GenerationResult)
    ensures
        schema_view(*schema) is Record ==> r is Ok && ({
            let rs = spec_convert_schema(schema_view(*schema));
            r->Ok_0@.len() == rs.len() && (forall|j: int|
                0 <= j < rs.len() ==> declaration_view(#[trigger] r->Ok_0@[j])
                    == C::spec_declaration(rs[j].name, rs[j].fields))
        }),
        !(schema_view(*schema) is Record) ==> r is Err && r->Err_0 is UnsupportedSchemaKind,
{
    match schema {
        Schema::Record(name, fields) => {
            let mut registry = Registry::new();
            converter.convert_record(name, fields, &mut registry)
        },
        _ => Err(GenerationError::UnsupportedSchemaKind),
    }
}

} // verus!
