//! The surface model of a schema: what a parser hands over before names are resolved.
//! The generator reads literals, comments and service declarations from it directly.
use vstd::prelude::*;

verus! {

/// A bare identifier as written in the schema.
#[derive(Debug, Clone, PartialEq, Eq, Hash)]
pub struct Ident {
    pub raw: String,
}

impl Ident {
    pub fn new(raw: &str) -> (r: Ident)
        ensures
            r.raw@ == raw@,
    {
        Ident { raw: String::from_str(raw) }
    }

    /// The identifier as it appears in generated code.
    pub fn code(&self) -> (r: String)
        ensures
            r@ == self.raw@,
    {
        self.raw.clone()
    }
}

/// A namespace-qualified reference, `a.b.C`.
#[derive(Debug, Clone, PartialEq)]
pub struct DottedIdent {
    pub parts: Vec<Ident>,
}

/// Documentation lines attached to a declaration, in source order.
#[derive(Debug, Clone, PartialEq)]
pub struct Comment {
    pub lines: Vec<String>,
}

/// A floating constant held as decimal text that reads back as the same value, in the
/// form Rust's `Display` gives a finite `f64` (`1`, `0.5`, `100000000000000000000`).
#[derive(Debug, Clone, PartialEq)]
pub struct FloatConstant {
    pub text: String,
}

impl FloatConstant {
    pub fn new(text: &str) -> (r: FloatConstant)
        ensures
            r.text@ == text@,
    {
        FloatConstant { text: String::from_str(text) }
    }
}

#[derive(Debug, Clone, PartialEq)]
pub enum Scalar {
    Integer(i64),
    Float(FloatConstant),
    Boolean(bool),
}

/// The default of a field: a constant, or a variant of the field's enum type.
#[derive(Debug, Clone, PartialEq)]
pub enum DefaultValue {
    Scalar(Scalar),
    Ident(Ident),
}

#[derive(Debug, Clone, PartialEq)]
pub enum SingleValue {
    Scalar(Scalar),
    StringConstant(String),
}

/// Key/value metadata; keys are distinct.
#[derive(Debug, Clone, PartialEq)]
pub struct Metadata {
    pub entries: Vec<(Ident, Option<SingleValue>)>,
}

impl Metadata {
    /// No key occurs twice.
    pub open spec fn wf(&self) -> bool {
        forall|i: int, j: int|
            0 <= i < j < self.entries@.len() ==> (#[trigger] self.entries@[i]).0.raw@ != (
            #[trigger] self.entries@[j]).0.raw@
    }
}

/// A JSON-like object; keys are distinct.

pub struct Object {
    pub entries: Vec<(Ident, Value)>,
}

impl Object {
    /// No key occurs twice.
    pub open spec fn wf(&self) -> bool {
        forall|i: int, j: int|
            0 <= i < j < self.entries@.len() ==> (#[trigger] self.entries@[i]).0.raw@ != (
            #[trigger] self.entries@[j]).0.raw@
    }
}


pub enum Value {
    SingleValue(SingleValue),
    Object(Object),
    List(Vec<Value>),
}

#[derive(Debug, Clone, PartialEq, Eq, Hash)]
pub struct Include {
    pub path: String,
}

#[derive(Debug, Clone, PartialEq)]
pub struct Root {
    pub ident: Ident,
}

#[derive(Debug, Clone, PartialEq, Eq, Hash)]
pub struct FileExtension {
    pub ext: String,
}

#[derive(Debug, Clone, PartialEq, Eq, Hash)]
pub struct FileIdentifier {
    pub id: String,
}

#[derive(Debug, Clone, PartialEq, Default)]
pub struct Namespace {
    pub parts: Vec<Ident>,
}

#[derive(Debug, Clone, PartialEq, Eq, Hash)]
pub struct Attribute {
    pub ident: Ident,
}

#[derive(Debug, Copy, Clone, PartialEq, Eq, Hash)]
pub enum ProductKind {
    Table,
    Struct,
}

#[derive(Debug, PartialEq, Eq, Hash)]
pub enum Type {
    Bool,
    Byte,
    UByte,
    Short,
    UShort,
    Int,
    UInt,
    Float,
    Long,
    ULong,
    Double,
    Int8,
    UInt8,
    Int16,
    UInt16,
    Int32,
    UInt32,
    Int64,
    UInt64,
    Float32,
    Float64,
    String,
    Array(Box<Type>),
    Ident(Ident),
}

#[derive(Debug, PartialEq)]
pub struct Field {
    pub name: Ident,
    pub ty: Type,
    pub default_value: Option<DefaultValue>,
    pub metadata: Option<Metadata>,
    pub doc: Comment,
}

#[derive(Debug, PartialEq)]
pub struct ProductType {
    pub kind: ProductKind,
    pub name: Ident,
    pub fields: Vec<Field>,
    pub metadata: Option<Metadata>,
    pub doc: Comment,
}

/// A table declaration with no metadata and no documentation.
pub fn table(name: Ident, fields: Vec<Field>) -> (r: ProductType)
    ensures
        r.kind == ProductKind::Table,
        r.name == name,
        r.fields == fields,
        r.metadata.is_none(),
        r.doc.lines@.len() == 0,
{
    ProductType { kind: ProductKind::Table, name, fields, metadata: None, doc: Comment { lines: Vec::new() } }
}

/// A struct declaration with no metadata and no documentation.
pub fn struct_(name: Ident, fields: Vec<Field>) -> (r: ProductType)
    ensures
        r.kind == ProductKind::Struct,
        r.name == name,
        r.fields == fields,
        r.metadata.is_none(),
        r.doc.lines@.len() == 0,
{
    ProductType { kind: ProductKind::Struct, name, fields, metadata: None, doc: Comment { lines: Vec::new() } }
}

#[derive(Debug, PartialEq, Eq, Hash)]
pub struct EnumVal {
    pub name: Ident,
    pub value: Option<i64>,
}

#[derive(Debug, PartialEq, Eq, Hash)]
pub enum EnumKind {
    Enum(Type),
    Union,
}

#[derive(Debug, PartialEq)]
pub struct Enum {
    pub kind: EnumKind,
    pub metadata: Option<Metadata>,
    pub values: Vec<EnumVal>,
    pub ident: Ident,
    pub doc: Comment,
}

#[derive(Debug, PartialEq)]
pub struct RpcMethod {
    pub name: Ident,
    pub request_type: DottedIdent,
    pub response_type: DottedIdent,
    pub metadata: Option<Metadata>,
    pub doc: Comment,
}

#[derive(Debug, PartialEq)]
pub struct Rpc {
    pub name: Ident,
    pub methods: Vec<RpcMethod>,
    pub doc: Comment,
}


pub enum Element {
    Namespace(Namespace),
    ProductType(ProductType),
    Enum(Enum),
    Root(Root),
    FileExtension(FileExtension),
    FileIdentifier(FileIdentifier),
    Attribute(Attribute),
    Rpc(Rpc),
    Object(Object),
}


pub struct Schema {
    pub includes: Vec<Include>,
    pub body: Vec<Element>,
}

} // verus!
