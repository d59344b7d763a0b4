//! The resolved model: every type reference carries its definition, and
//! namespaces form a tree of nodes.
use vstd::prelude::*;
use crate::ast::{Comment, DefaultValue};

verus! {

/// A resolved name: its own identifier and the namespace path it was declared in.
#[derive(Debug, Clone, PartialEq)]
pub struct Ident {
    pub namespace: Vec<String>,
    pub raw: String,
}

impl Ident {
    /// An identifier declared at the top level.
    pub fn new(raw: &str) -> (r: Ident)
        ensures
            r.raw@ == raw@,
            r.namespace@.len() == 0,
    {
        Ident { namespace: Vec::new(), raw: String::from_str(raw) }
    }

    /// The identifier as it appears in generated code.
    pub fn code(&self) -> (r: String)
        ensures
            r@ == self.raw@,
    {
        self.raw.clone()
    }

    /// The identifier with its namespace stripped, as used where a local item is declared.
    pub fn simple(&self) -> (r: Ident)
        ensures
            r.raw@ == self.raw@,
            r.namespace@.len() == 0,
    {
        Ident { namespace: Vec::new(), raw: self.raw.clone() }
    }
}

/// The storage type of an enum; legacy and width-explicit names are the same on the wire.
#[derive(Debug, Copy, Clone, PartialEq, Eq)]
pub enum EnumBaseType {
    Byte,
    UByte,
    Short,
    UShort,
    Int,
    UInt,
    Long,
    ULong,
    Int8,
    UInt8,
    Int16,
    UInt16,
    Int32,
    UInt32,
    Int64,
    UInt64,
}

#[derive(Debug, PartialEq)]
pub struct UnionVariant {
    pub ident: Ident,
    pub ty: Type,
}

/// What a named type reference resolved to.
#[derive(Debug, PartialEq)]
pub enum CustomType {
    Table,
    Struct,
    Enum { base_type: EnumBaseType },
    Union { enum_ident: Ident, variants: Vec<UnionVariant> },
}

#[derive(Debug, PartialEq)]
pub struct CustomTypeRef {
    pub ident: Ident,
    pub ty: CustomType,
}

#[derive(Debug, PartialEq)]
pub enum Type {
    Bool,
    Byte,
    UByte,
    Short,
    UShort,
    Int,
    UInt,
    Float,
    Long,
    ULong,
    Double,
    Int8,
    UInt8,
    Int16,
    UInt16,
    Int32,
    UInt32,
    Int64,
    UInt64,
    Float32,
    Float64,
    String,
    Array(Box<Type>),
    Custom(CustomTypeRef),
}

/// Scalars are stored inline in a table; everything else sits behind an offset.
pub open spec fn is_scalar_spec(ty: Type) -> bool {
    match ty {
        Type::String | Type::Array(_) => false,
        Type::Custom(c) => c.ty is Enum,
        _ => true,
    }
}

pub open spec fn is_union_spec(ty: Type) -> bool {
    ty matches Type::Custom(c) && c.ty is Union
}

impl Type {
    pub fn is_scalar(&self) -> (r: bool)
        ensures
            r == is_scalar_spec(*self),
    {
        match self {
            Type::String | Type::Array(_) => false,
            Type::Custom(c) => match c.ty {
                CustomType::Enum { .. } => true,
                _ => false,
            },
            _ => true,
        }
    }

    pub fn is_union(&self) -> (r: bool)
        ensures
            r == is_union_spec(*self),
    {
        match self {
            Type::Custom(c) => match c.ty {
                CustomType::Union { .. } => true,
                _ => false,
            },
            _ => false,
        }
    }
}

#[derive(Debug, PartialEq)]
pub struct Field {
    pub ident: Ident,
    pub ty: Type,
    pub default_value: Option<DefaultValue>,
    pub doc: Comment,
}

/// A table; the position of a field fixes its vtable slot.
#[derive(Debug, PartialEq)]
pub struct Table {
    pub ident: Ident,
    pub fields: Vec<Field>,
    pub doc: Comment,
}

#[derive(Debug, Clone, PartialEq)]
pub struct EnumVal {
    pub ident: Ident,
    pub value: Option<i64>,
}

#[derive(Debug, PartialEq)]
pub struct Enum {
    pub ident: Ident,
    pub values: Vec<EnumVal>,
    pub base_type: EnumBaseType,
    pub doc: Comment,
}

/// A union; `enum_ident` names its tag enum.
#[derive(Debug, PartialEq)]
pub struct Union {
    pub ident: Ident,
    pub enum_ident: Ident,
    pub variants: Vec<UnionVariant>,
    pub doc: Comment,
}

#[derive(Debug, PartialEq)]
pub struct Namespace {
    pub ident: Ident,
    pub nodes: Vec<Node>,
}

#[derive(Debug, PartialEq)]
pub enum Node {
    Table(Table),
    Enum(Enum),
    Union(Union),
    Namespace(Namespace),
}

#[derive(Debug, PartialEq)]
pub struct Root {
    pub nodes: Vec<Node>,
}

} // verus!
