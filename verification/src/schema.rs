use vstd::prelude::*;

verus! {

/// Bit width of a numeric schema kind. The width never changes the produced
/// type expression (every numeric kind maps to the number keyword), but it is
/// kept so that a schema value records which Avro kind it came from.
#[derive(Clone, Copy, Debug, PartialEq, Eq, Structural)]
pub enum NumericWidth {
    Bits32,
    Bits64,
}

/// Namespace-qualified name of a named schema (record, enum, fixed).
/// It is the identity key for deduplication and cycle detection.
#[derive(Debug, PartialEq, Eq)]
pub struct QualifiedName {
    pub namespace: Option<String>,
    pub name: String,
}

/// Mathematical value of a `QualifiedName`.
#[verifier::ext_equal]
pub ghost struct QualifiedNameV {
    pub namespace: Option<Seq<char>>,
    pub name: Seq<char>,
}

/// One field of a record schema; order of fields is significant.
#[derive(Debug, PartialEq)]
pub struct Field {
    pub name: String,
    pub schema: Schema,
}

/// Mathematical value of a `Field`.
#[verifier::ext_equal]
pub ghost struct FieldV {
    pub name: Seq<char>,
    pub schema: SchemaV,
}

/// An already-parsed Avro schema node. Values are immutable trees; a
/// reference to an already-declared named type is written as a named node
/// with that name (its member list does not matter at a second occurrence,
/// because conversion declares each name exactly once).
#[derive(Debug, PartialEq)]
pub enum Schema {
    Null,
    Boolean,
    Integer(NumericWidth),
    FloatingPoint(NumericWidth),
    Bytes,
    String,
    LogicalDate,
    LogicalTimeMillis,
    LogicalTimeMicros,
    LogicalTimestampMillis,
    LogicalTimestampMicros,
    LogicalDuration,
    LogicalUuid,
    LogicalDecimal(usize, usize),
    Array(Box<Schema>),
    MapOf(Box<Schema>),
    Union(Vec<Schema>),
    Record(QualifiedName, Vec<Field>),
    Enum(QualifiedName, Vec<String>),
    Fixed(QualifiedName, usize),
}

/// Mathematical value of a `Schema`.
#[verifier::ext_equal]
pub ghost enum SchemaV {
    Null,
    Boolean,
    Integer(NumericWidth),
    FloatingPoint(NumericWidth),
    Bytes,
    String,
    LogicalDate,
    LogicalTimeMillis,
    LogicalTimeMicros,
    LogicalTimestampMillis,
    LogicalTimestampMicros,
    LogicalDuration,
    LogicalUuid,
    LogicalDecimal(usize, usize),
    Array(Box<SchemaV>),
    MapOf(Box<SchemaV>),
    Union(Seq<SchemaV>),
    Record(QualifiedNameV, Seq<FieldV>),
    Enum(QualifiedNameV, Seq<Seq<char>>),
    Fixed(QualifiedNameV, usize),
}

pub open spec fn qname_view(q: QualifiedName) -> QualifiedNameV {
    QualifiedNameV {
        namespace: match q.namespace {
            Some(ns) => Some(ns@),
            None => None,
        },
        name: q.name@,
    }
}

pub open spec fn field_view(f: Field) -> FieldV
    decreases f,
{
    FieldV { name: f.name@, schema: schema_view(f.schema) }
}

pub open spec fn fields_view(fs: Seq<Field>) -> Seq<FieldV>
    decreases fs,
{
    if fs.len() == 0 {
        Seq::empty()
    } else {
        fields_view(fs.drop_last()).push(field_view(fs.last()))
    }
}

pub open spec fn schemas_view(ss: Seq<Schema>) -> Seq<SchemaV>
    decreases ss,
{
    if ss.len() == 0 {
        Seq::empty()
    } else {
        schemas_view(ss.drop_last()).push(schema_view(ss.last()))
    }
}

pub open spec fn strings_view(ss: Seq<String>) -> Seq<Seq<char>> {
    Seq::new(ss.len(), |i: int| ss[i]@)
}

pub open spec fn schema_view(s: Schema) -> SchemaV
    decreases s,
{
    match s {
        Schema::Null => SchemaV::Null,
        Schema::Boolean => SchemaV::Boolean,
        Schema::Integer(w) => SchemaV::Integer(w),
        Schema::FloatingPoint(w) => SchemaV::FloatingPoint(w),
        Schema::Bytes => SchemaV::Bytes,
        Schema::String => SchemaV::String,
        Schema::LogicalDate => SchemaV::LogicalDate,
        Schema::LogicalTimeMillis => SchemaV::LogicalTimeMillis,
        Schema::LogicalTimeMicros => SchemaV::LogicalTimeMicros,
        Schema::LogicalTimestampMillis => SchemaV::LogicalTimestampMillis,
        Schema::LogicalTimestampMicros => SchemaV::LogicalTimestampMicros,
        Schema::LogicalDuration => SchemaV::LogicalDuration,
        Schema::LogicalUuid => SchemaV::LogicalUuid,
        Schema::LogicalDecimal(p, sc) => SchemaV::LogicalDecimal(p, sc),
        Schema::Array(item) => SchemaV::Array(Box::new(schema_view(*item))),
        Schema::MapOf(value) => SchemaV::MapOf(Box::new(schema_view(*value))),
        Schema::Union(variants) => SchemaV::Union(schemas_view(variants@)),
        Schema::Record(name, fields) => SchemaV::Record(qname_view(name), fields_view(fields@)),
        Schema::Enum(name, symbols) => SchemaV::Enum(qname_view(name), strings_view(symbols@)),
        Schema::Fixed(name, size) => SchemaV::Fixed(qname_view(name), size),
    }
}

pub proof fn lemma_fields_view(fs: Seq<Field>)
    ensures
        fields_view(fs).len() == fs.len(),
        forall|i: int| 0 <= i < fs.len() ==> fields_view(fs)[i] == field_view(fs[i]),
    decreases fs,
{
    if fs.len() > 0 {
        lemma_fields_view(fs.drop_last());
    }
}

pub proof fn lemma_schemas_view(ss: Seq<Schema>)
    ensures
        schemas_view(ss).len() == ss.len(),
        forall|i: int| 0 <= i < ss.len() ==> schemas_view(ss)[i] == schema_view(ss[i]),
    decreases ss,
{
    if ss.len() > 0 {
        lemma_schemas_view(ss.drop_last());
    }
}

/// Structural copy of a qualified name, with its mathematical value unchanged.
pub fn clone_qualified_name(q: &QualifiedName) -> (r: QualifiedName)
    ensures
        qname_view(r) == qname_view(*q),
{
    QualifiedName {
        namespace: match &q.namespace {
            Some(ns) => Some(ns.clone()),
            None => None,
        },
        name: q.name.clone(),
    }
}

/// Decides whether two qualified names denote the same named type.
pub fn qualified_name_eq(a: &QualifiedName, b: &QualifiedName) -> (r: bool)
    ensures
        r == (qname_view(*a) == qname_view(*b)),
{
    let namespace_eq: bool = match (&a.namespace, &b.namespace) {
        (Some(x), Some(y)) => *x == *y,
        (None, None) => true,
        _ => false,
    };
    let r = namespace_eq && a.name == b.name;
    proof {
        if r {
            assert(qname_view(*a) =~= qname_view(*b));
        }
    }
    r
}

} // verus!
