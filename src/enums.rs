//! The enum and union generators.
use vstd::prelude::*;
use vstd::string::StringExecFns;
use crate::ir::{Enum, EnumVal, Union, UnionVariant};
use crate::layout::{discriminant_spec, discriminants};
use crate::render::{
    base_type_code, base_type_text, comment_code_quoted, comment_literals, comment_quoted, comment_text,
    strings_view, type_code, type_text,
};
use crate::text::{int_text, is_plain_text, push_int, quoted, snake_case, snake_case_of, string_literal};

verus! {

/// The per-variant parts of an enum's generated code.
#[derive(Clone, Copy, PartialEq, Eq, Debug)]
pub enum EnumPart {
    Declare,
    FromBase,
    ToBase,
    Name,
}

/// A discriminant as a literal of the base type, `5_u8`.
pub open spec fn discriminant_literal_text(d: int, base: Seq<char>) -> Seq<char> {
    int_text(d) + "_"@ + base
}

/// Part `k` for variant `v` with discriminant `d`; `lit` is the quoted variant name.
pub open spec fn enum_part_text(k: EnumPart, ename: Seq<char>, base: Seq<char>, v: EnumVal, d: int, lit_name: Seq<char>) -> Seq<char> {
    let lit = discriminant_literal_text(d, base);
    let vn = v.ident.raw@;
    match k {
        EnumPart::Declare => vn + " = "@ + lit + ",\n"@,
        EnumPart::FromBase => lit + " => Ok(<"@ + ename + ">::"@ + vn + "),\n"@,
        EnumPart::ToBase => "<"@ + ename + ">::"@ + vn + " => "@ + lit + ",\n"@,
        EnumPart::Name => ename + "::"@ + vn + " => "@ + lit_name + ",\n"@,
    }
}

/// Part `k` for the first `n` variants, in declaration order.
pub open spec fn enum_parts_text(k: EnumPart, e: Enum, names: Seq<Seq<char>>, n: nat) -> Seq<char>
    decreases n,
{
    if n == 0 || n > e.values@.len() {
        Seq::empty()
    } else {
        enum_parts_text(k, e, names, (n - 1) as nat) + enum_part_text(
            k,
            e.ident.raw@,
            base_type_text(e.base_type),
            e.values@[n - 1],
            discriminant_spec(e.values@, n - 1),
            names[n - 1],
        )
    }
}

/// The generated code of an enum whose name in snake_case is `snake`, given the quoted
/// names of its variants and its quoted documentation lines.
pub open spec fn enum_text(e: Enum, snake: Seq<char>, names: Seq<Seq<char>>, doc: Seq<Seq<char>>) -> Seq<char> {
    let en = e.ident.raw@;
    let b = base_type_text(e.base_type);
    let n = e.values@.len();
    "#[repr("@ + b
        + ")]\n#[allow(non_camel_case_types)]\n#[derive(Clone, Copy, PartialEq, Eq, PartialOrd, Ord, Hash, Debug)]\n"@
        + comment_text(doc) + "pub enum "@ + en + " {\n"@ + enum_parts_text(EnumPart::Declare, e, names, n)
        + "}\nimpl<'a> butte::Follow<'a> for "@ + en
        + " {\ntype Inner = Self;\nfn follow(buf: &'a [u8], loc: usize) -> Result<Self::Inner, butte::Error> {\nlet scalar = butte::read_scalar_at::<"@
        + b + ">(buf, loc)?;\n<Self as std::convert::TryFrom<"@ + b
        + ">>::try_from(scalar)\n}\n}\nimpl std::convert::TryFrom<"@ + b + "> for "@ + en
        + " {\ntype Error = butte::Error;\nfn try_from(value: "@ + b
        + ") -> Result<Self, Self::Error> {\nmatch value {\n"@ + enum_parts_text(EnumPart::FromBase, e, names, n)
        + "_ => Err(butte::Error::UnknownEnumVariant),\n}\n}\n}\nimpl From<"@ + en + "> for "@ + b
        + " {\nfn from(value: "@ + en + ") -> "@ + b + " {\nmatch value {\n"@
        + enum_parts_text(EnumPart::ToBase, e, names, n) + "}\n}\n}\nimpl butte::Push for "@ + en
        + " {\ntype Output = Self;\n#[inline]\nfn push(&self, dst: &mut [u8], _rest: &[u8]) {\nlet scalar = <"@
        + b + ">::from(*self);\nbutte::emplace_scalar::<"@ + b
        + ">(dst, scalar);\n}\n}\npub fn enum_name_"@ + snake + "(e: "@ + en
        + ") -> &'static str {\nmatch e {\n"@ + enum_parts_text(EnumPart::Name, e, names, n) + "}\n}\n"@
}

fn enum_part_code(k: EnumPart, ename: &str, base: &str, v: &EnumVal, d: i64, lit_name: &str) -> (r: String)
    ensures
        r@ == enum_part_text(k, ename@, base@, *v, d as int, lit_name@),
{
    let mut lit = String::new();
    push_int(&mut lit, d);
    lit.append("_");
    lit.append(base);
    let vn = v.ident.raw.as_str();
    let mut out = String::new();
    match k {
        EnumPart::Declare => {
            out.append(vn);
            out.append(" = ");
            out.append(lit.as_str());
            out.append(",\n");
        },
        EnumPart::FromBase => {
            out.append(lit.as_str());
            out.append(" => Ok(<");
            out.append(ename);
            out.append(">::");
            out.append(vn);
            out.append("),\n");
        },
        EnumPart::ToBase => {
            out.append("<");
            out.append(ename);
            out.append(">::");
            out.append(vn);
            out.append(" => ");
            out.append(lit.as_str());
            out.append(",\n");
        },
        EnumPart::Name => {
            out.append(ename);
            out.append("::");
            out.append(vn);
            out.append(" => ");
            out.append(lit_name);
            out.append(",\n");
        },
    }
    out
}

fn enum_parts_code(k: EnumPart, e: &Enum, ds: &Vec<i64>, names: &Vec<String>) -> (r: String)
    requires
        ds@.len() == e.values@.len(),
        names@.len() == e.values@.len(),
        forall|i: int| 0 <= i < ds@.len() ==> ds@[i] as int == discriminant_spec(e.values@, i),
    ensures
        r@ == enum_parts_text(k, *e, strings_view(names@), e.values@.len()),
{
    let base = base_type_code(e.base_type);
    let mut out = String::new();
    let mut i: usize = 0;
    while i < e.values.len()
        invariant
            i <= e.values@.len(),
            ds@.len() == e.values@.len(),
            names@.len() == e.values@.len(),
            forall|j: int| 0 <= j < ds@.len() ==> ds@[j] as int == discriminant_spec(e.values@, j),
            base@ == base_type_text(e.base_type),
            out@ == enum_parts_text(k, *e, strings_view(names@), i as nat),
        decreases e.values@.len() - i,
    {
        let p = enum_part_code(k, e.ident.raw.as_str(), base, &e.values[i], ds[i], names[i].as_str());
        out.append(p.as_str());
        i = i + 1;
    }
    out
}

/// Generates an enum's code given the snake_case form of its name, the quoted names of
/// its variants and its quoted documentation lines.
pub fn enum_code_named(e: &Enum, snake: &str, names: &Vec<String>, doc_lits: &Vec<String>) -> (r: String)
    requires
        e.values@.len() <= i64::MAX,
        names@.len() == e.values@.len(),
    ensures
        r@ == enum_text(*e, snake@, strings_view(names@), strings_view(doc_lits@)),
{
    let ds = discriminants(&e.values);
    let en = e.ident.raw.as_str();
    let b = base_type_code(e.base_type);
    let doc = comment_code_quoted(doc_lits);
    let declare = enum_parts_code(EnumPart::Declare, e, &ds, names);
    let from_base = enum_parts_code(EnumPart::FromBase, e, &ds, names);
    let to_base = enum_parts_code(EnumPart::ToBase, e, &ds, names);
    let name_arms = enum_parts_code(EnumPart::Name, e, &ds, names);
    let mut out = String::from_str("#[repr(");
    out.append(b);
    out.append(")]\n#[allow(non_camel_case_types)]\n#[derive(Clone, Copy, PartialEq, Eq, PartialOrd, Ord, Hash, Debug)]\n");
    out.append(doc.as_str());
    out.append("pub enum ");
    out.append(en);
    out.append(" {\n");
    out.append(declare.as_str());
    out.append("}\nimpl<'a> butte::Follow<'a> for ");
    out.append(en);
    out.append(" {\ntype Inner = Self;\nfn follow(buf: &'a [u8], loc: usize) -> Result<Self::Inner, butte::Error> {\nlet scalar = butte::read_scalar_at::<");
    out.append(b);
    out.append(">(buf, loc)?;\n<Self as std::convert::TryFrom<");
    out.append(b);
    out.append(">>::try_from(scalar)\n}\n}\nimpl std::convert::TryFrom<");
    out.append(b);
    out.append("> for ");
    out.append(en);
    out.append(" {\ntype Error = butte::Error;\nfn try_from(value: ");
    out.append(b);
    out.append(") -> Result<Self, Self::Error> {\nmatch value {\n");
    out.append(from_base.as_str());
    out.append("_ => Err(butte::Error::UnknownEnumVariant),\n}\n}\n}\nimpl From<");
    out.append(en);
    out.append("> for ");
    out.append(b);
    out.append(" {\nfn from(value: ");
    out.append(en);
    out.append(") -> ");
    out.append(b);
    out.append(" {\nmatch value {\n");
    out.append(to_base.as_str());
    out.append("}\n}\n}\nimpl butte::Push for ");
    out.append(en);
    out.append(" {\ntype Output = Self;\n#[inline]\nfn push(&self, dst: &mut [u8], _rest: &[u8]) {\nlet scalar = <");
    out.append(b);
    out.append(">::from(*self);\nbutte::emplace_scalar::<");
    out.append(b);
    out.append(">(dst, scalar);\n}\n}\npub fn enum_name_");
    out.append(snake);
    out.append("(e: ");
    out.append(en);
    out.append(") -> &'static str {\nmatch e {\n");
    out.append(name_arms.as_str());
    out.append("}\n}\n");
    out
}

/// Whether `names` quotes the names of the variants of `e`, one for one.
pub open spec fn variant_names_quoted(e: Enum, names: Seq<Seq<char>>) -> bool {
    &&& names.len() == e.values@.len()
    &&& forall|i: int| 0 <= i < names.len() ==> quoted(e.values@[i].ident.raw@, #[trigger] names[i])
}

/// Quotes the name of each variant of `e`.
pub fn variant_literals(e: &Enum) -> (r: Vec<String>)
    ensures
        variant_names_quoted(*e, strings_view(r@)),
{
    let mut r: Vec<String> = Vec::new();
    let mut i: usize = 0;
    while i < e.values.len()
        invariant
            i <= e.values@.len(),
            r@.len() == i,
            forall|j: int| 0 <= j < i ==> quoted(e.values@[j].ident.raw@, (#[trigger] r@[j])@),
        decreases e.values@.len() - i,
    {
        r.push(string_literal(e.values[i].ident.raw.as_str()));
        i = i + 1;
    }
    r
}

/// What the generated code of an enum is, whatever literals quoting gave.
pub open spec fn enum_rel(e: Enum, s: Seq<char>) -> bool {
    exists|names: Seq<Seq<char>>, doc: Seq<Seq<char>>|
        variant_names_quoted(e, names) && comment_quoted(e.doc, doc) && s == #[trigger] enum_text(
            e,
            snake_case_of(e.ident.raw@),
            names,
            doc,
        )
}

/// Generates the code of an enum: the enum with its discriminants, decoding from and
/// conversion to its base type, writing, and the name of each variant.
pub fn enum_code(e: &Enum) -> (r: String)
    requires
        e.values@.len() <= i64::MAX,
    ensures
        enum_rel(*e, r@),
{
    let snake = snake_case(e.ident.raw.as_str());
    let names = variant_literals(e);
    let doc = comment_literals(&e.doc);
    let r = enum_code_named(e, snake.as_str(), &names, &doc);
    assert(variant_names_quoted(*e, strings_view(names@)) && comment_quoted(e.doc, strings_view(doc@))
        && r@ == enum_text(*e, snake_case_of(e.ident.raw@), strings_view(names@), strings_view(doc@)));
    r
}

pub open spec fn union_variant_text(v: UnionVariant) -> Seq<char> {
    v.ident.raw@ + "("@ + type_text(v.ty, "'a"@, Seq::empty()) + "),\n"@
}

pub open spec fn union_tag_text(uname: Seq<char>, ename: Seq<char>, v: UnionVariant) -> Seq<char> {
    uname + "::"@ + v.ident.raw@ + "(..) => "@ + ename + "::"@ + v.ident.raw@ + ",\n"@
}

pub open spec fn union_variants_text(vs: Seq<UnionVariant>, n: nat) -> Seq<char>
    decreases n,
{
    if n == 0 || n > vs.len() {
        Seq::empty()
    } else {
        union_variants_text(vs, (n - 1) as nat) + union_variant_text(vs[n - 1])
    }
}

pub open spec fn union_tags_text(uname: Seq<char>, ename: Seq<char>, vs: Seq<UnionVariant>, n: nat) -> Seq<char>
    decreases n,
{
    if n == 0 || n > vs.len() {
        Seq::empty()
    } else {
        union_tags_text(uname, ename, vs, (n - 1) as nat) + union_tag_text(uname, ename, vs[n - 1])
    }
}

/// The generated code of a union: one variant per member holding its payload, and the
/// tag of each variant.
pub open spec fn union_text(u: Union, doc: Seq<Seq<char>>) -> Seq<char> {
    let un = u.ident.raw@;
    let en = u.enum_ident.raw@;
    let n = u.variants@.len();
    "#[derive(Copy, Clone, Debug, PartialEq)]\n"@ + comment_text(doc) + "pub enum "@ + un + "<'a> {\n"@
        + union_variants_text(u.variants@, n) + "}\nimpl "@ + un + "<'_> {\npub fn get_type(&self) -> "@
        + en + " {\nmatch self {\n"@ + union_tags_text(un, en, u.variants@, n) + "}\n}\n}\n"@
}

/// Generates the code of a union given its quoted documentation lines, see `union_text`.
pub fn union_code_named(u: &Union, doc_lits: &Vec<String>) -> (r: String)
    ensures
        r@ == union_text(*u, strings_view(doc_lits@)),
{
    let un = u.ident.raw.as_str();
    let en = u.enum_ident.raw.as_str();
    proof {
        reveal_strlit("");
        assert(""@ =~= Seq::<char>::empty());
    }
    let mut variants = String::new();
    let mut tags = String::new();
    let mut i: usize = 0;
    while i < u.variants.len()
        invariant
            i <= u.variants@.len(),
            ""@ =~= Seq::<char>::empty(),
            variants@ == union_variants_text(u.variants@, i as nat),
            tags@ == union_tags_text(un@, en@, u.variants@, i as nat),
        decreases u.variants@.len() - i,
    {
        let v = &u.variants[i];
        let ty = type_code(&v.ty, "'a", "");
        let ghost before = variants@;
        variants.append(v.ident.raw.as_str());
        variants.append("(");
        variants.append(ty.as_str());
        variants.append("),\n");
        assert(variants@ =~= before + union_variant_text(*v));
        let ghost before_tags = tags@;
        tags.append(un);
        tags.append("::");
        tags.append(v.ident.raw.as_str());
        tags.append("(..) => ");
        tags.append(en);
        tags.append("::");
        tags.append(v.ident.raw.as_str());
        tags.append(",\n");
        assert(tags@ =~= before_tags + union_tag_text(un@, en@, *v));
        i = i + 1;
    }
    let doc = comment_code_quoted(doc_lits);
    let mut out = String::from_str("#[derive(Copy, Clone, Debug, PartialEq)]\n");
    out.append(doc.as_str());
    out.append("pub enum ");
    out.append(un);
    out.append("<'a> {\n");
    out.append(variants.as_str());
    out.append("}\nimpl ");
    out.append(un);
    out.append("<'_> {\npub fn get_type(&self) -> ");
    out.append(en);
    out.append(" {\nmatch self {\n");
    out.append(tags.as_str());
    out.append("}\n}\n}\n");
    out
}

/// What the generated code of a union is, whatever literals quoting gave.
pub open spec fn union_rel(u: Union, s: Seq<char>) -> bool {
    exists|doc: Seq<Seq<char>>| comment_quoted(u.doc, doc) && s == #[trigger] union_text(u, doc)
}

/// Generates the code of a union: one variant per member holding its payload, and the
/// tag of each variant.
pub fn union_code(u: &Union) -> (r: String)
    ensures
        union_rel(*u, r@),
{
    let doc = comment_literals(&u.doc);
    let r = union_code_named(u, &doc);
    assert(comment_quoted(u.doc, strings_view(doc@)) && r@ == union_text(*u, strings_view(doc@)));
    r
}

} // verus!

verus! {

/// Whether every literal an enum's code quotes is plain text: its documentation lines
/// and the names of its variants.
pub open spec fn enum_plain(e: Enum) -> bool {
    &&& forall|j: int| 0 <= j < e.doc.lines@.len() ==> is_plain_text(#[trigger] e.doc.lines@[j]@)
    &&& forall|j: int| 0 <= j < e.values@.len() ==> is_plain_text(#[trigger] e.values@[j].ident.raw@)
}

/// Generating an enum is deterministic when every literal it quotes is plain text.
pub proof fn lemma_enum_text_determined(e: Enum, a: Seq<char>, b: Seq<char>)
    requires
        enum_rel(e, a),
        enum_rel(e, b),
        enum_plain(e),
    ensures
        a == b,
{
    let (n1, d1) = choose|n: Seq<Seq<char>>, d: Seq<Seq<char>>|
        variant_names_quoted(e, n) && comment_quoted(e.doc, d) && a == #[trigger] enum_text(
            e,
            snake_case_of(e.ident.raw@),
            n,
            d,
        );
    let (n2, d2) = choose|n: Seq<Seq<char>>, d: Seq<Seq<char>>|
        variant_names_quoted(e, n) && comment_quoted(e.doc, d) && b == #[trigger] enum_text(
            e,
            snake_case_of(e.ident.raw@),
            n,
            d,
        );
    assert forall|j: int| 0 <= j < n1.len() implies n1[j] == n2[j] by {
        assert(is_plain_text(e.values@[j].ident.raw@));
    }
    assert(n1 =~= n2);
    assert forall|j: int| 0 <= j < d1.len() implies d1[j] == d2[j] by {
        assert(is_plain_text(e.doc.lines@[j]@));
    }
    assert(d1 =~= d2);
}

/// Whether the documentation lines of a union are plain text.
pub open spec fn union_plain(u: Union) -> bool {
    forall|j: int| 0 <= j < u.doc.lines@.len() ==> is_plain_text(#[trigger] u.doc.lines@[j]@)
}

/// Generating a union is deterministic when its documentation lines are plain text.
pub proof fn lemma_union_text_determined(u: Union, a: Seq<char>, b: Seq<char>)
    requires
        union_rel(u, a),
        union_rel(u, b),
        union_plain(u),
    ensures
        a == b,
{
    let d1 = choose|d: Seq<Seq<char>>| comment_quoted(u.doc, d) && a == #[trigger] union_text(u, d);
    let d2 = choose|d: Seq<Seq<char>>| comment_quoted(u.doc, d) && b == #[trigger] union_text(u, d);
    assert forall|j: int| 0 <= j < d1.len() implies d1[j] == d2[j] by {
        assert(is_plain_text(u.doc.lines@[j]@));
    }
    assert(d1 =~= d2);
}

} // verus!
