//! Spelling of types, literals, default values, documentation and paths in the
//! generated source.
use vstd::prelude::*;
use vstd::string::{StrSliceExecFns, StringExecFns};
use crate::ast::{Comment, DefaultValue, DottedIdent, FloatConstant, Scalar, SingleValue};
use crate::ir::{CustomType, EnumBaseType, Type};
use crate::text::{
    int_text, is_plain_text, lemma_int_text_round_trip, push_int, quoted, signed_decimal_value,
    string_literal,
};

verus! {

pub open spec fn base_type_text(b: EnumBaseType) -> Seq<char> {
    match b {
        EnumBaseType::Byte | EnumBaseType::Int8 => "i8"@,
        EnumBaseType::UByte | EnumBaseType::UInt8 => "u8"@,
        EnumBaseType::Short | EnumBaseType::Int16 => "i16"@,
        EnumBaseType::UShort | EnumBaseType::UInt16 => "u16"@,
        EnumBaseType::Int | EnumBaseType::Int32 => "i32"@,
        EnumBaseType::UInt | EnumBaseType::UInt32 => "u32"@,
        EnumBaseType::Long | EnumBaseType::Int64 => "i64"@,
        EnumBaseType::ULong | EnumBaseType::UInt64 => "u64"@,
    }
}

/// The canonical name of an enum's storage type; both aliases of a width give the same name.
pub fn base_type_code(b: EnumBaseType) -> (r: &'static str)
    ensures
        r@ == base_type_text(b),
{
    match b {
        EnumBaseType::Byte | EnumBaseType::Int8 => "i8",
        EnumBaseType::UByte | EnumBaseType::UInt8 => "u8",
        EnumBaseType::Short | EnumBaseType::Int16 => "i16",
        EnumBaseType::UShort | EnumBaseType::UInt16 => "u16",
        EnumBaseType::Int | EnumBaseType::Int32 => "i32",
        EnumBaseType::UInt | EnumBaseType::UInt32 => "u32",
        EnumBaseType::Long | EnumBaseType::Int64 => "i64",
        EnumBaseType::ULong | EnumBaseType::UInt64 => "u64",
    }
}

/// The name of a primitive type; empty for strings, arrays and custom references.
pub open spec fn primitive_text(ty: Type) -> Seq<char> {
    match ty {
        Type::Bool => "bool"@,
        Type::Byte | Type::Int8 => "i8"@,
        Type::UByte | Type::UInt8 => "u8"@,
        Type::Short | Type::Int16 => "i16"@,
        Type::UShort | Type::UInt16 => "u16"@,
        Type::Int | Type::Int32 => "i32"@,
        Type::UInt | Type::UInt32 => "u32"@,
        Type::Float | Type::Float32 => "f32"@,
        Type::Long | Type::Int64 => "i64"@,
        Type::ULong | Type::UInt64 => "u64"@,
        Type::Double | Type::Float64 => "f64"@,
        _ => Seq::<char>::empty(),
    }
}

fn primitive_code(ty: &Type) -> (r: &'static str)
    ensures
        r@ == primitive_text(*ty),
{
    proof {
        reveal_strlit("");
    }
    match ty {
        Type::Bool => "bool",
        Type::Byte | Type::Int8 => "i8",
        Type::UByte | Type::UInt8 => "u8",
        Type::Short | Type::Int16 => "i16",
        Type::UShort | Type::UInt16 => "u16",
        Type::Int | Type::Int32 => "i32",
        Type::UInt | Type::UInt32 => "u32",
        Type::Float | Type::Float32 => "f32",
        Type::Long | Type::Int64 => "i64",
        Type::ULong | Type::UInt64 => "u64",
        Type::Double | Type::Float64 => "f64",
        _ => "",
    }
}

/// `wrap::<inner>`, or `inner` alone when no wrapper is given.
pub open spec fn wrapped_text(wrap: Seq<char>, inner: Seq<char>) -> Seq<char> {
    if wrap.len() == 0 {
        inner
    } else {
        wrap + "::<"@ + inner + ">"@
    }
}

/// The spelling of `ty` with lifetime `lt`; reference types (strings, tables,
/// structs, unions) not yet placed in the buffer are wrapped in `wrap`.
pub open spec fn type_text(ty: Type, lt: Seq<char>, wrap: Seq<char>) -> Seq<char>
    decreases ty,
{
    match ty {
        Type::String => wrapped_text(wrap, "&"@ + lt + " str"@),
        Type::Array(component) => "butte::Vector<"@ + lt + ", "@ + type_text(*component, lt, wrap)
            + ">"@,
        Type::Custom(c) => if c.ty is Enum {
            c.ident.raw@
        } else {
            wrapped_text(wrap, c.ident.raw@ + "<"@ + lt + ">"@)
        },
        _ => primitive_text(ty),
    }
}

fn wrapped_code(wrap: &str, inner: String) -> (r: String)
    ensures
        r@ == wrapped_text(wrap@, inner@),
{
    if wrap.unicode_len() == 0 {
        inner
    } else {
        let mut out = String::from_str(wrap);
        out.append("::<");
        out.append(inner.as_str());
        out.append(">");
        out
    }
}

/// Renders a type, see `type_text`.
pub fn type_code(ty: &Type, lt: &str, wrap: &str) -> (r: String)
    ensures
        r@ == type_text(*ty, lt@, wrap@),
    decreases ty,
{
    match ty {
        Type::String => {
            let mut inner = String::from_str("&");
            inner.append(lt);
            inner.append(" str");
            wrapped_code(wrap, inner)
        },
        Type::Array(component) => {
            let c = type_code(component, lt, wrap);
            let mut out = String::from_str("butte::Vector<");
            out.append(lt);
            out.append(", ");
            out.append(c.as_str());
            out.append(">");
            out
        },
        Type::Custom(c) => match c.ty {
            CustomType::Enum { .. } => c.ident.raw.clone(),
            _ => {
                let mut inner = c.ident.raw.clone();
                inner.append("<");
                inner.append(lt);
                inner.append(">");
                wrapped_code(wrap, inner)
            },
        },
        _ => String::from_str(primitive_code(ty)),
    }
}

/// A constant on its own: integers as 32-bit, floats as 64-bit, booleans verbatim.
pub open spec fn scalar_text(s: Scalar) -> Seq<char> {
    match s {
        Scalar::Integer(i) => int_text(i as int) + "i32"@,
        Scalar::Float(f) => f.text@ + "f64"@,
        Scalar::Boolean(b) => if b { "true"@ } else { "false"@ },
    }
}

/// Renders a constant, see `scalar_text`.
pub fn scalar_code(s: &Scalar) -> (r: String)
    ensures
        r@ == scalar_text(*s),
{
    match s {
        Scalar::Integer(i) => {
            let mut out = String::new();
            push_int(&mut out, *i);
            out.append("i32");
            out
        },
        Scalar::Float(f) => {
            let mut out = f.text.clone();
            out.append("f64");
            out
        },
        Scalar::Boolean(b) => if *b { String::from_str("true") } else { String::from_str("false") },
    }
}

/// Rendered constants read back as themselves: an integer is its decimal text, which
/// reads back as the integer, with the 32-bit suffix; a float is its decimal text with
/// the 64-bit suffix; a boolean is `true` or `false`; a quoted plain string holds the
/// string itself between its quotes.
pub proof fn lemma_literal_round_trip(i: i64, f: FloatConstant, b: bool, t: Seq<char>, lit: Seq<char>)
    requires
        quoted(t, lit),
        is_plain_text(t),
    ensures
        lit.subrange(1, lit.len() - 1) == t,
        scalar_text(Scalar::Integer(i)) == int_text(i as int) + "i32"@,
        signed_decimal_value(int_text(i as int)) == i,
        scalar_text(Scalar::Float(f)) == f.text@ + "f64"@,
        scalar_text(Scalar::Boolean(b)) == if b { "true"@ } else { "false"@ },
{
    lemma_int_text_round_trip(i as int);
    assert(lit.subrange(1, lit.len() - 1) =~= t);
}

/// Renders a metadata value: a constant as by `scalar_code`, a string as a quoted literal.
pub fn single_value_code(v: &SingleValue) -> (r: String)
    ensures
        match *v {
            SingleValue::Scalar(s) => r@ == scalar_text(s),
            SingleValue::StringConstant(t) => quoted(t@, r@),
        },
{
    match v {
        SingleValue::Scalar(s) => scalar_code(s),
        SingleValue::StringConstant(t) => string_literal(t.as_str()),
    }
}

/// The views of a sequence of strings.
pub open spec fn strings_view(v: Seq<String>) -> Seq<Seq<char>> {
    Seq::new(v.len(), |i: int| v[i]@)
}

/// The suffix of an integer constant given to a field of type `ty`: the field's own
/// width when it is numeric, 32-bit otherwise.
pub open spec fn integer_suffix_text(ty: Type) -> Seq<char> {
    match ty {
        Type::Byte | Type::Int8 | Type::UByte | Type::UInt8 | Type::Short | Type::Int16
        | Type::UShort | Type::UInt16 | Type::Int | Type::Int32 | Type::UInt | Type::UInt32
        | Type::Long | Type::Int64 | Type::ULong | Type::UInt64 | Type::Float | Type::Float32
        | Type::Double | Type::Float64 => primitive_text(ty),
        _ => "i32"@,
    }
}

fn integer_suffix_code(ty: &Type) -> (r: &'static str)
    ensures
        r@ == integer_suffix_text(*ty),
{
    match ty {
        Type::Byte | Type::Int8 | Type::UByte | Type::UInt8 | Type::Short | Type::Int16
        | Type::UShort | Type::UInt16 | Type::Int | Type::Int32 | Type::UInt | Type::UInt32
        | Type::Long | Type::Int64 | Type::ULong | Type::UInt64 | Type::Float | Type::Float32
        | Type::Double | Type::Float64 => primitive_code(ty),
        _ => "i32",
    }
}

/// The suffix of a floating constant given to a field of type `ty`: 32-bit for a
/// 32-bit float field, 64-bit otherwise.
pub open spec fn float_suffix_text(ty: Type) -> Seq<char> {
    match ty {
        Type::Float | Type::Float32 => "f32"@,
        _ => "f64"@,
    }
}

/// A constant as the default of a field of type `ty`.
pub open spec fn typed_scalar_text(ty: Type, s: Scalar) -> Seq<char> {
    match s {
        Scalar::Integer(i) => int_text(i as int) + integer_suffix_text(ty),
        Scalar::Float(f) => f.text@ + float_suffix_text(ty),
        Scalar::Boolean(_) => scalar_text(s),
    }
}

/// The default value expression of a field of type `ty`, spelled `arg_ty` in the
/// generated code; an enum default names the variant through its type.
pub open spec fn default_value_text(arg_ty: Seq<char>, ty: Type, d: DefaultValue) -> Seq<char> {
    match d {
        DefaultValue::Scalar(s) => typed_scalar_text(ty, s),
        DefaultValue::Ident(v) => "<"@ + arg_ty + ">::"@ + v.raw@,
    }
}

/// Renders a default value, see `default_value_text`.
pub fn default_value_code(arg_ty: &str, ty: &Type, d: &DefaultValue) -> (r: String)
    ensures
        r@ == default_value_text(arg_ty@, *ty, *d),
{
    match d {
        DefaultValue::Scalar(s) => match s {
            Scalar::Integer(i) => {
                let mut out = String::new();
                push_int(&mut out, *i);
                out.append(integer_suffix_code(ty));
                out
            },
            Scalar::Float(f) => {
                let mut out = f.text.clone();
                match ty {
                    Type::Float | Type::Float32 => out.append("f32"),
                    _ => out.append("f64"),
                }
                out
            },
            Scalar::Boolean(_) => scalar_code(s),
        },
        DefaultValue::Ident(v) => {
            let mut out = String::from_str("<");
            out.append(arg_ty);
            out.append(">::");
            out.append(v.raw.as_str());
            out
        },
    }
}

/// The sentence that documents a field's default.
pub open spec fn default_doc_source(arg_ty: Seq<char>, ty: Type, v: DefaultValue) -> Seq<char> {
    " The default value for this field is __"@ + default_value_text(arg_ty, ty, v) + "__"@
}

/// Renders the sentence that documents a field's default, see `default_doc_source`.
pub fn default_doc_source_code(arg_ty: &str, ty: &Type, v: &DefaultValue) -> (r: String)
    ensures
        r@ == default_doc_source(arg_ty@, *ty, *v),
{
    let mut line = String::from_str(" The default value for this field is __");
    let value = default_value_code(arg_ty, ty, v);
    line.append(value.as_str());
    line.append("__");
    line
}

/// Whether `lit` is a quoted literal of the sentence documenting the default `d`, or
/// empty when there is no default.
pub open spec fn default_doc_quoted(arg_ty: Seq<char>, ty: Type, d: Option<DefaultValue>, lit: Seq<char>) -> bool {
    match d {
        Some(v) => quoted(default_doc_source(arg_ty, ty, v), lit),
        None => lit.len() == 0,
    }
}

/// The documentation attribute holding the literal `lit` when the field has a default,
/// or nothing.
pub open spec fn default_doc_text(d: Option<DefaultValue>, lit: Seq<char>) -> Seq<char> {
    match d {
        Some(_) => "#[doc = "@ + lit + "]\n"@,
        None => Seq::<char>::empty(),
    }
}

pub fn default_doc_code(d: &Option<DefaultValue>, lit: &str) -> (r: String)
    ensures
        r@ == default_doc_text(*d, lit@),
{
    match d {
        Some(_) => {
            let mut out = String::from_str("#[doc = ");
            out.append(lit);
            out.append("]\n");
            out
        },
        None => String::new(),
    }
}

/// One documentation attribute per quoted line, in order, for the first `n` lines.
pub open spec fn doc_lines_text(lits: Seq<Seq<char>>, n: nat) -> Seq<char>
    decreases n,
{
    if n == 0 || n > lits.len() {
        Seq::<char>::empty()
    } else {
        doc_lines_text(lits, (n - 1) as nat) + "#[doc = "@ + lits[n - 1] + "]\n"@
    }
}

/// The documentation attributes for the quoted lines `lits`.
pub open spec fn comment_text(lits: Seq<Seq<char>>) -> Seq<char> {
    doc_lines_text(lits, lits.len())
}

/// Whether `lits` quotes the lines of `c`, one for one.
pub open spec fn comment_quoted(c: Comment, lits: Seq<Seq<char>>) -> bool {
    &&& lits.len() == c.lines@.len()
    &&& forall|i: int| 0 <= i < lits.len() ==> quoted(c.lines@[i]@, #[trigger] lits[i])
}

/// Quotes each line of `c`.
pub fn comment_literals(c: &Comment) -> (r: Vec<String>)
    ensures
        comment_quoted(*c, strings_view(r@)),
{
    let mut r: Vec<String> = Vec::new();
    let mut i: usize = 0;
    while i < c.lines.len()
        invariant
            i <= c.lines@.len(),
            r@.len() == i,
            forall|j: int| 0 <= j < i ==> quoted(c.lines@[j]@, (#[trigger] r@[j])@),
        decreases c.lines@.len() - i,
    {
        r.push(string_literal(c.lines[i].as_str()));
        i = i + 1;
    }
    r
}

/// Renders quoted documentation lines as documentation attributes, in order.
pub fn comment_code_quoted(lits: &Vec<String>) -> (r: String)
    ensures
        r@ == comment_text(strings_view(lits@)),
{
    let mut out = String::new();
    let mut i: usize = 0;
    while i < lits.len()
        invariant
            i <= lits@.len(),
            out@ == doc_lines_text(strings_view(lits@), i as nat),
        decreases lits@.len() - i,
    {
        out.append("#[doc = ");
        out.append(lits[i].as_str());
        out.append("]\n");
        i = i + 1;
    }
    out
}

/// Renders documentation lines as documentation attributes, preserving their order.
pub fn comment_code(c: &Comment) -> (r: String)
    ensures
        exists|lits: Seq<Seq<char>>| comment_quoted(*c, lits) && r@ == comment_text(lits),
{
    let lits = comment_literals(c);
    let r = comment_code_quoted(&lits);
    assert(comment_quoted(*c, strings_view(lits@)) && r@ == comment_text(strings_view(lits@)));
    r
}

/// `super::` once per enclosing level to climb.
pub open spec fn supers_text(n: nat) -> Seq<char>
    decreases n,
{
    if n == 0 { Seq::<char>::empty() } else { supers_text((n - 1) as nat) + "super::"@ }
}

pub open spec fn join_parts_text(parts: Seq<crate::ast::Ident>, n: nat) -> Seq<char>
    decreases n,
{
    if n == 0 || n > parts.len() {
        Seq::<char>::empty()
    } else if n == 1 {
        parts[0].raw@
    } else {
        join_parts_text(parts, (n - 1) as nat) + "::"@ + parts[n - 1].raw@
    }
}

/// A dotted reference `a.b.c` as the path `super::super::a::b::c`: one parent step
/// for every part but the last.
pub open spec fn dotted_text(d: DottedIdent) -> Seq<char> {
    supers_text((d.parts@.len() - 1) as nat) + join_parts_text(d.parts@, d.parts@.len())
}

/// Renders a dotted reference, see `dotted_text`.
pub fn dotted_code(d: &DottedIdent) -> (r: String)
    requires
        d.parts@.len() > 0,
    ensures
        r@ == dotted_text(*d),
{
    let n = d.parts.len();
    let mut out = String::new();
    let mut i: usize = 0;
    while i + 1 < n
        invariant
            n == d.parts@.len(),
            n > 0,
            i + 1 <= n,
            out@ == supers_text(i as nat),
        decreases n - i,
    {
        out.append("super::");
        i = i + 1;
    }
    let ghost prefix = out@;
    out.append(d.parts[0].raw.as_str());
    let mut j: usize = 1;
    while j < n
        invariant
            n == d.parts@.len(),
            1 <= j <= n,
            prefix == supers_text((n - 1) as nat),
            out@ == prefix + join_parts_text(d.parts@, j as nat),
        decreases n - j,
    {
        out.append("::");
        out.append(d.parts[j].raw.as_str());
        j = j + 1;
    }
    out
}

} // verus!
