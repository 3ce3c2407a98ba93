use vstd::prelude::*;

verus! {

/// The closed error taxonomy of the generator. The conversion core itself
/// only ever produces `UnsupportedSchemaKind`; the other kinds are raised at
/// the boundaries (reading the schema file, parsing its JSON, decoding the
/// rendered bytes) and carry the collaborator's diagnostic text.
#[derive(Debug)]
pub enum GenerationError {
    /// The schema file could not be opened or read.
    SchemaRead(String),
    /// The schema text is not a valid Avro schema.
    SchemaParse(String),
    /// The conversion entry point was handed a schema kind it does not
    /// cover; only a record may stand at the top level.
    UnsupportedSchemaKind,
    /// The rendered bytes could not be decoded as text.
    TextAssembly(String),
}

impl GenerationError {
    /// A short, fixed description of the error kind.
    pub fn kind_description(&self) -> (r: &'static str)
        ensures
            (*self is UnsupportedSchemaKind) ==> r@ == "unsupported schema kind"@,
            (*self is SchemaRead) ==> r@ == "schema read error"@,
            (*self is SchemaParse) ==> r@ == "schema parse error"@,
            (*self is TextAssembly) ==> r@ == "text assembly error"@,
    {
        match self {
            GenerationError::SchemaRead(_) => "schema read error",
            GenerationError::SchemaParse(_) => "schema parse error",
            GenerationError::UnsupportedSchemaKind => "unsupported schema kind",
            GenerationError::TextAssembly(_) => "text assembly error",
        }
    }

    /// The diagnostic text carried from the boundary, if any.
    pub fn detail(&self) -> (r: Option<&String>)
        ensures
            match *self {
                GenerationError::SchemaRead(ref s) => r == Some(s),
                GenerationError::SchemaParse(ref s) => r == Some(s),
                GenerationError::UnsupportedSchemaKind => r is None,
                GenerationError::TextAssembly(ref s) => r == Some(s),
            },
    {
        match self {
            GenerationError::SchemaRead(s) => Some(s),
            GenerationError::SchemaParse(s) => Some(s),
            GenerationError::UnsupportedSchemaKind => None,
            GenerationError::TextAssembly(s) => Some(s),
        }
    }
}

} // verus!
