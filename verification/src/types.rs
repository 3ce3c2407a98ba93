use vstd::prelude::*;
use crate::errors::GenerationError;
use crate::schema::{QualifiedName, QualifiedNameV, qname_view, strings_view};

verus! {

/// Keyword types of the target language.
#[derive(Clone, Copy, Debug, PartialEq, Eq, Structural)]
pub enum KeywordKind {
    Null,
    Boolean,
    Number,
    String,
}

/// A target-language type expression, the output of the type mapping engine.
/// It is backend-agnostic: rendering it into concrete source text is the
/// emitter's concern.
#[derive(Debug, PartialEq)]
pub enum TypeExpr {
    /// A keyword type such as the null, boolean, number or string keyword.
    Keyword(KeywordKind),
    /// A reference to a type by name (a declared record, or a well-known
    /// name such as the byte-array or date/time type).
    Reference(String),
    /// An array of the element type.
    ArrayOf(Box<TypeExpr>),
    /// A generic reference with type arguments, e.g. a string-keyed mapping.
    GenericReference(String, Vec<TypeExpr>),
    /// A union of the listed types, in order, duplicates kept.
    UnionOf(Vec<TypeExpr>),
    /// A union of string literal types, in order.
    StringLiteralUnion(Vec<String>),
}

/// Mathematical value of a `TypeExpr`.
#[verifier::ext_equal]
pub ghost enum TypeExprV {
    Keyword(KeywordKind),
    Reference(Seq<char>),
    ArrayOf(Box<TypeExprV>),
    GenericReference(Seq<char>, Seq<TypeExprV>),
    UnionOf(Seq<TypeExprV>),
    StringLiteralUnion(Seq<Seq<char>>),
}

/// One member of a structural interface declaration.
#[derive(Debug, PartialEq)]
pub struct Member {
    pub name: String,
    pub type_expr: TypeExpr,
}

/// Mathematical value of a `Member`.
#[verifier::ext_equal]
pub ghost struct MemberV {
    pub name: Seq<char>,
    pub type_expr: TypeExprV,
}

/// A runtime-validator expression, the output of the validator strategy.
/// The vocabulary is deliberately small; rendering it into a concrete
/// validation library's builder calls is the emitter's concern.
#[derive(Debug, PartialEq)]
pub enum ValidatorExpr {
    IsNull,
    IsBoolean,
    IsNumber,
    IsString,
    IsByteArray,
    IsDateTime,
    ArrayOf(Box<ValidatorExpr>),
    StringMapOf(Box<ValidatorExpr>),
    OneOf(Vec<ValidatorExpr>),
    LiteralOneOf(Vec<String>),
    RefTo(String),
    Object(Vec<ValidatorProperty>),
}

/// One checked property of an object validator.
#[derive(Debug, PartialEq)]
pub struct ValidatorProperty {
    pub name: String,
    pub check: ValidatorExpr,
}

/// Mathematical value of a `ValidatorExpr`.
#[verifier::ext_equal]
pub ghost enum ValidatorExprV {
    IsNull,
    IsBoolean,
    IsNumber,
    IsString,
    IsByteArray,
    IsDateTime,
    ArrayOf(Box<ValidatorExprV>),
    StringMapOf(Box<ValidatorExprV>),
    OneOf(Seq<ValidatorExprV>),
    LiteralOneOf(Seq<Seq<char>>),
    RefTo(Seq<char>),
    Object(Seq<ValidatorPropertyV>),
}

/// Mathematical value of a `ValidatorProperty`.
#[verifier::ext_equal]
pub ghost struct ValidatorPropertyV {
    pub name: Seq<char>,
    pub check: ValidatorExprV,
}

/// The body of a top-level declaration, one form per strategy.
#[derive(Debug, PartialEq)]
pub enum DeclarationBody {
    /// A structural interface: one member per record field, in field order.
    Interface(Vec<Member>),
    /// An exported validator binding for the record.
    Validator(ValidatorExpr),
}

/// Mathematical value of a `DeclarationBody`.
#[verifier::ext_equal]
pub ghost enum DeclarationBodyV {
    Interface(Seq<MemberV>),
    Validator(ValidatorExprV),
}

/// One top-level output unit: a named declaration produced for exactly one
/// named type during a conversion run.
#[derive(Debug, PartialEq)]
pub struct Declaration {
    pub name: QualifiedName,
    pub body: DeclarationBody,
}

/// Mathematical value of a `Declaration`.
#[verifier::ext_equal]
pub ghost struct DeclarationV {
    pub name: QualifiedNameV,
    pub body: DeclarationBodyV,
}

/// What a conversion returns: the ordered declarations, or the first error.
pub type GenerationResult = Result<Vec<Declaration>, GenerationError>;

pub open spec fn type_expr_view(t: TypeExpr) -> TypeExprV
    decreases t,
{
    match t {
        TypeExpr::Keyword(k) => TypeExprV::Keyword(k),
        TypeExpr::Reference(n) => TypeExprV::Reference(n@),
        TypeExpr::ArrayOf(e) => TypeExprV::ArrayOf(Box::new(type_expr_view(*e))),
        TypeExpr::GenericReference(n, args) => TypeExprV::GenericReference(
            n@,
            type_exprs_view(args@),
        ),
        TypeExpr::UnionOf(ts) => TypeExprV::UnionOf(type_exprs_view(ts@)),
        TypeExpr::StringLiteralUnion(ls) => TypeExprV::StringLiteralUnion(strings_view(ls@)),
    }
}

pub open spec fn type_exprs_view(ts: Seq<TypeExpr>) -> Seq<TypeExprV>
    decreases ts,
{
    if ts.len() == 0 {
        Seq::empty()
    } else {
        type_exprs_view(ts.drop_last()).push(type_expr_view(ts.last()))
    }
}

pub open spec fn member_view(m: Member) -> MemberV
    decreases m,
{
    MemberV { name: m.name@, type_expr: type_expr_view(m.type_expr) }
}

pub open spec fn members_view(ms: Seq<Member>) -> Seq<MemberV>
    decreases ms,
{
    if ms.len() == 0 {
        Seq::empty()
    } else {
        members_view(ms.drop_last()).push(member_view(ms.last()))
    }
}

pub open spec fn validator_expr_view(v: ValidatorExpr) -> ValidatorExprV
    decreases v,
{
    match v {
        ValidatorExpr::IsNull => ValidatorExprV::IsNull,
        ValidatorExpr::IsBoolean => ValidatorExprV::IsBoolean,
        ValidatorExpr::IsNumber => ValidatorExprV::IsNumber,
        ValidatorExpr::IsString => ValidatorExprV::IsString,
        ValidatorExpr::IsByteArray => ValidatorExprV::IsByteArray,
        ValidatorExpr::IsDateTime => ValidatorExprV::IsDateTime,
        ValidatorExpr::ArrayOf(e) => ValidatorExprV::ArrayOf(Box::new(validator_expr_view(*e))),
        ValidatorExpr::StringMapOf(e) => ValidatorExprV::StringMapOf(
            Box::new(validator_expr_view(*e)),
        ),
        ValidatorExpr::OneOf(vs) => ValidatorExprV::OneOf(validator_exprs_view(vs@)),
        ValidatorExpr::LiteralOneOf(ls) => ValidatorExprV::LiteralOneOf(strings_view(ls@)),
        ValidatorExpr::RefTo(n) => ValidatorExprV::RefTo(n@),
        ValidatorExpr::Object(ps) => ValidatorExprV::Object(validator_properties_view(ps@)),
    }
}

pub open spec fn validator_exprs_view(vs: Seq<ValidatorExpr>) -> Seq<ValidatorExprV>
    decreases vs,
{
    if vs.len() == 0 {
        Seq::empty()
    } else {
        validator_exprs_view(vs.drop_last()).push(validator_expr_view(vs.last()))
    }
}

pub open spec fn validator_property_view(p: ValidatorProperty) -> ValidatorPropertyV
    decreases p,
{
    ValidatorPropertyV { name: p.name@, check: validator_expr_view(p.check) }
}

pub open spec fn validator_properties_view(ps: Seq<ValidatorProperty>) -> Seq<ValidatorPropertyV>
    decreases ps,
{
    if ps.len() == 0 {
        Seq::empty()
    } else {
        validator_properties_view(ps.drop_last()).push(validator_property_view(ps.last()))
    }
}

pub open spec fn declaration_body_view(b: DeclarationBody) -> DeclarationBodyV
    decreases b,
{
    match b {
        DeclarationBody::Interface(ms) => DeclarationBodyV::Interface(members_view(ms@)),
        DeclarationBody::Validator(v) => DeclarationBodyV::Validator(validator_expr_view(v)),
    }
}

pub open spec fn declaration_view(d: Declaration) -> DeclarationV
    decreases d,
{
    DeclarationV { name: qname_view(d.name), body: declaration_body_view(d.body) }
}


pub proof fn lemma_type_exprs_view(ts: Seq<TypeExpr>)
    ensures
        type_exprs_view(ts).len() == ts.len(),
        forall|i: int| 0 <= i < ts.len() ==> type_exprs_view(ts)[i] == type_expr_view(ts[i]),
    decreases ts,
{
    if ts.len() > 0 {
        lemma_type_exprs_view(ts.drop_last());
    }
}




} // verus!
