//! The table generator: offset constants, reader, argument record and builder.
use vstd::prelude::*;
use vstd::string::StringExecFns;
use crate::ir::{CustomType, Field, Table, Type, UnionVariant, is_scalar_spec, is_union_spec};
use crate::layout::{MAX_FIELDS, MAX_FIELD_INDEX, field_offset_spec};
use crate::render::{
    comment_code_quoted, comment_literals, comment_quoted, comment_text, default_doc_code,
    default_doc_quoted, default_doc_source, default_doc_source_code, default_doc_text, default_value_code,
    strings_view,
    default_value_text, type_code, type_text,
};
use crate::text::{
    int_text, push_int, shouty_snake_case, shouty_snake_case_of, snake_case, snake_case_of,
    is_plain_text, quoted, string_literal,
};

verus! {

/// The text a field contributes beyond its own name: snake_case for methods,
/// SHOUTY_SNAKE_CASE for its offset constant, the quoted snake_case name for the
/// required check, and the quoted sentence documenting its default (empty without one).
pub struct FieldText {
    pub snake: String,
    pub shouty: String,
    pub required_lit: String,
    pub default_doc_lit: String,
}

pub open spec fn texts_view(v: Seq<FieldText>) -> Seq<(Seq<char>, Seq<char>, Seq<char>, Seq<char>)> {
    Seq::new(v.len(), |i: int| (v[i].snake@, v[i].shouty@, v[i].required_lit@, v[i].default_doc_lit@))
}

/// Whether `texts` holds, for each field of `t`, its names as case conversion gives them
/// and literals that quote the snake_case name and the default's documentation.
pub open spec fn field_texts_ok(t: Table, texts: Seq<(Seq<char>, Seq<char>, Seq<char>, Seq<char>)>) -> bool {
    &&& texts.len() == t.fields@.len()
    &&& forall|i: int|
        0 <= i < texts.len() ==> {
            let f = t.fields@[i];
            &&& (#[trigger] texts[i]).0 == snake_case_of(f.ident.raw@)
            &&& texts[i].1 == shouty_snake_case_of(f.ident.raw@)
            &&& quoted(texts[i].0, texts[i].2)
            &&& default_doc_quoted(arg_type_text(f.ty, "'a"@), f.ty, f.default_value, texts[i].3)
        }
}

/// The per-field parts of a table's generated code.
#[derive(Clone, Copy, PartialEq, Eq, Debug)]
pub enum Part {
    AddCall,
    ArgField,
    BuilderMethod,
    OffsetConst,
    Accessor,
    RequiredCheck,
}

/// The type of a field as a builder argument: a union as an untyped placed offset.
pub open spec fn arg_type_text(ty: Type, lt: Seq<char>) -> Seq<char> {
    if is_union_spec(ty) {
        "butte::WIPOffset<butte::UnionWIPOffset>"@
    } else {
        type_text(ty, lt, "butte::WIPOffset"@)
    }
}

fn arg_type_code(ty: &Type, lt: &str) -> (r: String)
    ensures
        r@ == arg_type_text(*ty, lt@),
{
    if ty.is_union() {
        String::from_str("butte::WIPOffset<butte::UnionWIPOffset>")
    } else {
        type_code(ty, lt, "butte::WIPOffset")
    }
}

/// `Table::VT_NAME`, the path of a field's offset constant.
pub open spec fn offset_path_text(tname: Seq<char>, shouty: Seq<char>) -> Seq<char> {
    tname + "::VT_"@ + shouty
}

/// A match arm that reads the union field as variant `v` when the tag names it.
pub open spec fn union_arm_text(
    tname: Seq<char>,
    shouty: Seq<char>,
    union_name: Seq<char>,
    enum_name: Seq<char>,
    v: UnionVariant,
) -> Seq<char> {
    "Some("@ + enum_name + "::"@ + v.ident.raw@ + ") => self.table.get::<"@ + type_text(
        v.ty,
        "'a"@,
        "butte::ForwardsUOffset"@,
    ) + ">("@ + offset_path_text(tname, shouty) + ")?.map("@ + union_name + "::"@ + v.ident.raw@
        + "),\n"@
}

pub open spec fn union_arms_text(
    tname: Seq<char>,
    shouty: Seq<char>,
    union_name: Seq<char>,
    enum_name: Seq<char>,
    vs: Seq<UnionVariant>,
    n: nat,
) -> Seq<char>
    decreases n,
{
    if n == 0 || n > vs.len() {
        Seq::empty()
    } else {
        union_arms_text(tname, shouty, union_name, enum_name, vs, (n - 1) as nat) + union_arm_text(
            tname,
            shouty,
            union_name,
            enum_name,
            vs[n - 1],
        )
    }
}

/// The body of a union field's accessor: read the tag, then the payload it names.
pub open spec fn union_body_text(tname: Seq<char>, snake: Seq<char>, shouty: Seq<char>, ty: Type) -> Seq<char> {
    match ty {
        Type::Custom(c) => match c.ty {
            CustomType::Union { enum_ident, variants } => "Ok(match self."@ + snake + "_type()? {\n"@
                + union_arms_text(tname, shouty, c.ident.raw@, enum_ident.raw@, variants@, variants@.len())
                + "None | Some("@ + enum_ident.raw@ + "::None) => None,\n})\n"@,
            _ => Seq::empty(),
        },
        _ => Seq::empty(),
    }
}

/// The call that writes a field into its slot, skipping a scalar equal to its default.
pub open spec fn push_text(tname: Seq<char>, shouty: Seq<char>, f: Field) -> Seq<char> {
    let arg_ty = arg_type_text(f.ty, "'_"@);
    if is_scalar_spec(f.ty) && f.default_value.is_some() {
        "self.fbb.push_slot::<"@ + arg_ty + ">("@ + offset_path_text(tname, shouty) + ", "@
            + f.ident.raw@ + ", "@ + default_value_text(arg_ty, f.ty, f.default_value.unwrap())
            + ");\n"@
    } else {
        "self.fbb.push_slot_always::<"@ + arg_ty + ">("@ + offset_path_text(tname, shouty) + ", "@
            + f.ident.raw@ + ");\n"@
    }
}

/// The generated code of part `k` for field `f` in slot `i` of table `tname`.
pub open spec fn part_text(
    k: Part,
    tname: Seq<char>,
    f: Field,
    i: int,
    names: (Seq<char>, Seq<char>, Seq<char>, Seq<char>),
) -> Seq<char> {
    let raw = f.ident.raw@;
    let snake = names.0;
    let shouty = names.1;
    match k {
        Part::AddCall => "builder.add_"@ + raw + "(args."@ + raw + ");\n"@,
        Part::ArgField => default_doc_text(f.default_value, names.3)
            + "pub "@ + raw + ": "@ + arg_type_text(f.ty, "'a"@) + ",\n"@,
        Part::BuilderMethod => "#[inline]\npub fn add_"@ + raw + "(&mut self, "@ + raw + ": "@
            + arg_type_text(f.ty, "'_"@) + ") {\n"@ + push_text(tname, shouty, f) + "}\n"@,
        Part::OffsetConst => "pub const VT_"@ + shouty + ": butte::VOffsetT = "@ + int_text(
            field_offset_spec(i),
        ) + ";\n"@,
        Part::Accessor => "#[inline]\npub fn "@ + snake + "(&self) -> Result<Option<"@ + type_text(
            f.ty,
            "'a"@,
            Seq::empty(),
        ) + ">, butte::Error> {\n"@ + if is_union_spec(f.ty) {
            union_body_text(tname, snake, shouty, f.ty)
        } else {
            "self.table.get::<"@ + type_text(f.ty, "'a"@, "butte::ForwardsUOffset"@) + ">("@
                + offset_path_text(tname, shouty) + ")\n"@
        } + "}\n"@,
        Part::RequiredCheck => if f.default_value.is_none() {
            "self.fbb.required(o, "@ + offset_path_text(tname, shouty) + ", "@ + names.2 + ");\n"@
        } else {
            Seq::empty()
        },
    }
}

/// Part `k` for the first `n` fields, in declaration order.
pub open spec fn parts_text(
    k: Part,
    tname: Seq<char>,
    fields: Seq<Field>,
    names: Seq<(Seq<char>, Seq<char>, Seq<char>, Seq<char>)>,
    n: nat,
) -> Seq<char>
    decreases n,
{
    if n == 0 || n > fields.len() {
        Seq::empty()
    } else {
        parts_text(k, tname, fields, names, (n - 1) as nat) + part_text(
            k,
            tname,
            fields[n - 1],
            n - 1,
            names[n - 1],
        )
    }
}

fn push_offset_path(out: &mut String, tname: &str, shouty: &str)
    ensures
        final(out)@ == old(out)@ + offset_path_text(tname@, shouty@),
{
    out.append(tname);
    out.append("::VT_");
    out.append(shouty);
}

fn union_arm_code(tname: &str, shouty: &str, union_name: &str, enum_name: &str, v: &UnionVariant) -> (r: String)
    ensures
        r@ == union_arm_text(tname@, shouty@, union_name@, enum_name@, *v),
{
    let vt = type_code(&v.ty, "'a", "butte::ForwardsUOffset");
    let mut out = String::from_str("Some(");
    out.append(enum_name);
    out.append("::");
    out.append(v.ident.raw.as_str());
    out.append(") => self.table.get::<");
    out.append(vt.as_str());
    out.append(">(");
    push_offset_path(&mut out, tname, shouty);
    out.append(")?.map(");
    out.append(union_name);
    out.append("::");
    out.append(v.ident.raw.as_str());
    out.append("),\n");
    out
}

fn union_body_code(tname: &str, snake: &str, shouty: &str, ty: &Type) -> (r: String)
    ensures
        r@ == union_body_text(tname@, snake@, shouty@, *ty),
{
    match ty {
        Type::Custom(c) => match &c.ty {
            CustomType::Union { enum_ident, variants } => {
                let mut out = String::from_str("Ok(match self.");
                out.append(snake);
                out.append("_type()? {\n");
                let ghost head = out@;
                let mut j: usize = 0;
                while j < variants.len()
                    invariant
                        j <= variants@.len(),
                        out@ == head + union_arms_text(
                            tname@,
                            shouty@,
                            c.ident.raw@,
                            enum_ident.raw@,
                            variants@,
                            j as nat,
                        ),
                    decreases variants@.len() - j,
                {
                    let arm = union_arm_code(tname, shouty, c.ident.raw.as_str(), enum_ident.raw.as_str(), &variants[j]);
                    out.append(arm.as_str());
                    j = j + 1;
                }
                out.append("None | Some(");
                out.append(enum_ident.raw.as_str());
                out.append("::None) => None,\n})\n");
                out
            },
            _ => String::new(),
        },
        _ => String::new(),
    }
}

fn push_code(tname: &str, shouty: &str, f: &Field) -> (r: String)
    ensures
        r@ == push_text(tname@, shouty@, *f),
{
    let arg_ty = arg_type_code(&f.ty, "'_");
    let mut out = String::new();
    if f.ty.is_scalar() && f.default_value.is_some() {
        let d = match &f.default_value {
            Some(d) => d,
            None => { return out; },
        };
        let dv = default_value_code(arg_ty.as_str(), &f.ty, d);
        out.append("self.fbb.push_slot::<");
        out.append(arg_ty.as_str());
        out.append(">(");
        push_offset_path(&mut out, tname, shouty);
        out.append(", ");
        out.append(f.ident.raw.as_str());
        out.append(", ");
        out.append(dv.as_str());
        out.append(");\n");
    } else {
        out.append("self.fbb.push_slot_always::<");
        out.append(arg_ty.as_str());
        out.append(">(");
        push_offset_path(&mut out, tname, shouty);
        out.append(", ");
        out.append(f.ident.raw.as_str());
        out.append(");\n");
    }
    out
}

fn add_call_code(f: &Field) -> (r: String)
    ensures
        r@ == part_text(Part::AddCall, Seq::empty(), *f, 0, (Seq::empty(), Seq::empty(), Seq::empty(), Seq::empty())),
{
    let raw = f.ident.raw.as_str();
    let mut out = String::from_str("builder.add_");
    out.append(raw);
    out.append("(args.");
    out.append(raw);
    out.append(");\n");
    out
}

fn arg_field_code(f: &Field, doc_lit: &str) -> (r: String)
    ensures
        r@ == part_text(Part::ArgField, Seq::empty(), *f, 0, (Seq::empty(), Seq::empty(), Seq::empty(), doc_lit@)),
{
    let raw = f.ident.raw.as_str();
    let arg_ty = arg_type_code(&f.ty, "'a");
    let mut out = default_doc_code(&f.default_value, doc_lit);
    out.append("pub ");
    out.append(raw);
    out.append(": ");
    out.append(arg_ty.as_str());
    out.append(",\n");
    out
}

fn builder_method_code(tname: &str, shouty: &str, f: &Field) -> (r: String)
    ensures
        r@ == part_text(Part::BuilderMethod, tname@, *f, 0, (Seq::empty(), shouty@, Seq::empty(), Seq::empty())),
{
    let raw = f.ident.raw.as_str();
    let arg_ty = arg_type_code(&f.ty, "'_");
    let body = push_code(tname, shouty, f);
    let mut out = String::from_str("#[inline]\npub fn add_");
    out.append(raw);
    out.append("(&mut self, ");
    out.append(raw);
    out.append(": ");
    out.append(arg_ty.as_str());
    out.append(") {\n");
    out.append(body.as_str());
    out.append("}\n");
    out
}

fn offset_const_code(shouty: &str, i: usize) -> (r: String)
    requires
        i <= MAX_FIELD_INDEX,
    ensures
        forall|f: Field, tname: Seq<char>, snake: Seq<char>, a: Seq<char>, b: Seq<char>|
            r@ == #[trigger] part_text(Part::OffsetConst, tname, f, i as int, (snake, shouty@, a, b)),
{
    let mut out = String::from_str("pub const VT_");
    out.append(shouty);
    out.append(": butte::VOffsetT = ");
    push_int(&mut out, 4 + 2 * (i as i64));
    out.append(";\n");
    out
}

fn accessor_code(tname: &str, snake: &str, shouty: &str, f: &Field) -> (r: String)
    ensures
        r@ == part_text(Part::Accessor, tname@, *f, 0, (snake@, shouty@, Seq::empty(), Seq::empty())),
{
    let ty_plain = type_code(&f.ty, "'a", "");
    proof {
        reveal_strlit("");
        assert(""@ =~= Seq::<char>::empty());
    }
    let body = if f.ty.is_union() {
        union_body_code(tname, snake, shouty, &f.ty)
    } else {
        let ty_wrapped = type_code(&f.ty, "'a", "butte::ForwardsUOffset");
        let mut b = String::from_str("self.table.get::<");
        b.append(ty_wrapped.as_str());
        b.append(">(");
        push_offset_path(&mut b, tname, shouty);
        b.append(")\n");
        assert(b@ =~= "self.table.get::<"@ + type_text(f.ty, "'a"@, "butte::ForwardsUOffset"@) + ">("@
            + offset_path_text(tname@, shouty@) + ")\n"@);
        b
    };
    let mut out = String::from_str("#[inline]\npub fn ");
    out.append(snake);
    out.append("(&self) -> Result<Option<");
    out.append(ty_plain.as_str());
    out.append(">, butte::Error> {\n");
    out.append(body.as_str());
    out.append("}\n");
    out
}

fn required_check_code(tname: &str, shouty: &str, lit: &str, f: &Field) -> (r: String)
    ensures
        r@ == part_text(Part::RequiredCheck, tname@, *f, 0, (Seq::empty(), shouty@, lit@, Seq::empty())),
{
    let mut out = String::new();
    if f.default_value.is_none() {
        out.append("self.fbb.required(o, ");
        push_offset_path(&mut out, tname, shouty);
        out.append(", ");
        out.append(lit);
        out.append(");\n");
    }
    out
}

/// Renders part `k` of field `f`, see `part_text`.
pub fn part_code(k: Part, tname: &str, f: &Field, i: usize, names: &FieldText) -> (r: String)
    requires
        i <= MAX_FIELD_INDEX,
    ensures
        r@ == part_text(k, tname@, *f, i as int, (names.snake@, names.shouty@, names.required_lit@, names.default_doc_lit@)),
{
    let snake = names.snake.as_str();
    let shouty = names.shouty.as_str();
    match k {
        Part::AddCall => add_call_code(f),
        Part::ArgField => arg_field_code(f, names.default_doc_lit.as_str()),
        Part::BuilderMethod => builder_method_code(tname, shouty, f),
        Part::OffsetConst => {
            let r = offset_const_code(shouty, i);
            assert(r@ == part_text(k, tname@, *f, i as int, (names.snake@, names.shouty@, names.required_lit@, names.default_doc_lit@)));
            r
        },
        Part::Accessor => accessor_code(tname, snake, shouty, f),
        Part::RequiredCheck => required_check_code(tname, shouty, names.required_lit.as_str(), f),
    }
}

/// Renders part `k` for every field of `t`, in declaration order.
pub fn parts_code(k: Part, t: &Table, names: &Vec<FieldText>) -> (r: String)
    requires
        names@.len() == t.fields@.len(),
        t.fields@.len() <= MAX_FIELDS,
    ensures
        r@ == parts_text(k, t.ident.raw@, t.fields@, texts_view(names@), t.fields@.len()),
{
    let mut out = String::new();
    let mut i: usize = 0;
    while i < t.fields.len()
        invariant
            i <= t.fields@.len(),
            names@.len() == t.fields@.len(),
            t.fields@.len() <= MAX_FIELDS,
            out@ == parts_text(k, t.ident.raw@, t.fields@, texts_view(names@), i as nat),
        decreases t.fields@.len() - i,
    {
        let p = part_code(k, t.ident.raw.as_str(), &t.fields[i], i, &names[i]);
        out.append(p.as_str());
        i = i + 1;
    }
    out
}

} // verus!

verus! {

/// Whether the argument record borrows: some field is neither scalar nor a union.
pub open spec fn args_borrow(fields: Seq<Field>) -> bool {
    exists|i: int| 0 <= i < fields.len() && !(is_scalar_spec(#[trigger] fields[i].ty) || is_union_spec(fields[i].ty))
}

pub open spec fn args_lifetime_text(fields: Seq<Field>, lt: Seq<char>) -> Seq<char> {
    if args_borrow(fields) {
        "<"@ + lt + ">"@
    } else {
        Seq::empty()
    }
}

fn args_borrow_code(fields: &Vec<Field>) -> (r: bool)
    ensures
        r == args_borrow(fields@),
{
    let mut i: usize = 0;
    while i < fields.len()
        invariant
            i <= fields@.len(),
            forall|j: int| 0 <= j < i ==> is_scalar_spec(#[trigger] fields@[j].ty) || is_union_spec(fields@[j].ty),
        decreases fields@.len() - i,
    {
        if !(fields[i].ty.is_scalar() || fields[i].ty.is_union()) {
            return true;
        }
        i = i + 1;
    }
    false
}

fn args_lifetime_code(borrow: bool, lt: &str) -> (r: String)
    ensures
        borrow ==> r@ == "<"@ + lt@ + ">"@,
        !borrow ==> r@ == Seq::<char>::empty(),
{
    if borrow {
        let mut out = String::from_str("<");
        out.append(lt);
        out.append(">");
        out
    } else {
        String::new()
    }
}

/// The offset marker type, the reader type with its `create`, offset constants and
/// accessors, and its decode entry point.
pub open spec fn reader_text(t: Table, names: Seq<(Seq<char>, Seq<char>, Seq<char>, Seq<char>)>, doc: Seq<Seq<char>>) -> Seq<char> {
    let tn = t.ident.raw@;
    let n = t.fields@.len();
    "pub enum "@ + tn + "Offset {}\n#[derive(Copy, Clone, Debug, PartialEq)]\n"@ + comment_text(doc)
        + "pub struct "@ + tn + "<'a> {\ntable: butte::Table<'a>,\n}\nimpl<'a> From<butte::Table<'a>> for "@
        + tn + "<'a> {\nfn from(table: butte::Table<'a>) -> Self {\nSelf { table }\n}\n}\nimpl<'a> "@
        + tn + "<'a> {\npub fn create<'bldr: 'args, 'args: 'mut_bldr, 'mut_bldr>(\nfbb: &'mut_bldr mut butte::FlatBufferBuilder<'bldr>,\nargs: &'args "@
        + tn + "Args"@ + args_lifetime_text(t.fields@, "'args"@) + ",\n) -> butte::WIPOffset<"@ + tn
        + "<'bldr>> {\nlet mut builder = "@ + tn + "Builder::new(fbb);\n"@
        + parts_text(Part::AddCall, tn, t.fields@, names, n) + "builder.finish()\n}\n"@
        + parts_text(Part::OffsetConst, tn, t.fields@, names, n)
        + parts_text(Part::Accessor, tn, t.fields@, names, n)
        + "}\nimpl<'a> butte::Follow<'a> for "@ + tn
        + "<'a> {\ntype Inner = Self;\n#[inline]\nfn follow(buf: &'a [u8], loc: usize) -> Result<Self::Inner, butte::Error> {\nlet table = butte::Table { buf, loc };\nOk(Self { table })\n}\n}\n"@
}

/// The argument record, the builder type and its `add_*`, `new` and `finish` methods.
pub open spec fn builder_text(t: Table, names: Seq<(Seq<char>, Seq<char>, Seq<char>, Seq<char>)>) -> Seq<char> {
    let tn = t.ident.raw@;
    let n = t.fields@.len();
    "pub struct "@ + tn + "Args"@ + args_lifetime_text(t.fields@, "'a"@) + " {\n"@
        + parts_text(Part::ArgField, tn, t.fields@, names, n) + "}\npub struct "@ + tn
        + "Builder<'a, 'b> {\nfbb: &'b mut butte::FlatBufferBuilder<'a>,\nstart: butte::WIPOffset<butte::TableUnfinishedWIPOffset>,\n}\nimpl<'a: 'b, 'b> "@
        + tn + "Builder<'a, 'b> {\n"@ + parts_text(Part::BuilderMethod, tn, t.fields@, names, n)
        + "#[inline]\npub fn new(fbb: &'b mut butte::FlatBufferBuilder<'a>) -> Self {\nlet start = fbb.start_table();\n"@
        + tn + "Builder { fbb, start }\n}\n#[inline]\npub fn finish(self) -> butte::WIPOffset<"@ + tn
        + "<'a>> {\nlet o = self.fbb.end_table(self.start);\n"@
        + parts_text(Part::RequiredCheck, tn, t.fields@, names, n)
        + "butte::WIPOffset::new(o.value())\n}\n}\n"@
}

/// The whole generated code of a table, given the text of its fields and its quoted
/// documentation lines.
pub open spec fn table_text(t: Table, names: Seq<(Seq<char>, Seq<char>, Seq<char>, Seq<char>)>, doc: Seq<Seq<char>>) -> Seq<char> {
    reader_text(t, names, doc) + builder_text(t, names)
}

fn reader_code(t: &Table, names: &Vec<FieldText>, doc_lits: &Vec<String>) -> (r: String)
    requires
        names@.len() == t.fields@.len(),
        t.fields@.len() <= MAX_FIELDS,
    ensures
        r@ == reader_text(*t, texts_view(names@), strings_view(doc_lits@)),
{
    let tn = t.ident.raw.as_str();
    let doc = comment_code_quoted(doc_lits);
    let lt = args_lifetime_code(args_borrow_code(&t.fields), "'args");
    let adds = parts_code(Part::AddCall, t, names);
    let consts = parts_code(Part::OffsetConst, t, names);
    let accessors = parts_code(Part::Accessor, t, names);
    let mut out = String::from_str("pub enum ");
    out.append(tn);
    out.append("Offset {}\n#[derive(Copy, Clone, Debug, PartialEq)]\n");
    out.append(doc.as_str());
    out.append("pub struct ");
    out.append(tn);
    out.append("<'a> {\ntable: butte::Table<'a>,\n}\nimpl<'a> From<butte::Table<'a>> for ");
    out.append(tn);
    out.append("<'a> {\nfn from(table: butte::Table<'a>) -> Self {\nSelf { table }\n}\n}\nimpl<'a> ");
    out.append(tn);
    out.append("<'a> {\npub fn create<'bldr: 'args, 'args: 'mut_bldr, 'mut_bldr>(\nfbb: &'mut_bldr mut butte::FlatBufferBuilder<'bldr>,\nargs: &'args ");
    out.append(tn);
    out.append("Args");
    out.append(lt.as_str());
    out.append(",\n) -> butte::WIPOffset<");
    out.append(tn);
    out.append("<'bldr>> {\nlet mut builder = ");
    out.append(tn);
    out.append("Builder::new(fbb);\n");
    out.append(adds.as_str());
    out.append("builder.finish()\n}\n");
    out.append(consts.as_str());
    out.append(accessors.as_str());
    out.append("}\nimpl<'a> butte::Follow<'a> for ");
    out.append(tn);
    out.append("<'a> {\ntype Inner = Self;\n#[inline]\nfn follow(buf: &'a [u8], loc: usize) -> Result<Self::Inner, butte::Error> {\nlet table = butte::Table { buf, loc };\nOk(Self { table })\n}\n}\n");
    out
}

fn builder_code(t: &Table, names: &Vec<FieldText>) -> (r: String)
    requires
        names@.len() == t.fields@.len(),
        t.fields@.len() <= MAX_FIELDS,
    ensures
        r@ == builder_text(*t, texts_view(names@)),
{
    let tn = t.ident.raw.as_str();
    let lt = args_lifetime_code(args_borrow_code(&t.fields), "'a");
    let args = parts_code(Part::ArgField, t, names);
    let methods = parts_code(Part::BuilderMethod, t, names);
    let required = parts_code(Part::RequiredCheck, t, names);
    let mut out = String::from_str("pub struct ");
    out.append(tn);
    out.append("Args");
    out.append(lt.as_str());
    out.append(" {\n");
    out.append(args.as_str());
    out.append("}\npub struct ");
    out.append(tn);
    out.append("Builder<'a, 'b> {\nfbb: &'b mut butte::FlatBufferBuilder<'a>,\nstart: butte::WIPOffset<butte::TableUnfinishedWIPOffset>,\n}\nimpl<'a: 'b, 'b> ");
    out.append(tn);
    out.append("Builder<'a, 'b> {\n");
    out.append(methods.as_str());
    out.append("#[inline]\npub fn new(fbb: &'b mut butte::FlatBufferBuilder<'a>) -> Self {\nlet start = fbb.start_table();\n");
    out.append(tn);
    out.append("Builder { fbb, start }\n}\n#[inline]\npub fn finish(self) -> butte::WIPOffset<");
    out.append(tn);
    out.append("<'a>> {\nlet o = self.fbb.end_table(self.start);\n");
    out.append(required.as_str());
    out.append("butte::WIPOffset::new(o.value())\n}\n}\n");
    out
}

/// Generates a table's code from the given text of its fields and quoted documentation.
pub fn table_code_named(t: &Table, names: &Vec<FieldText>, doc_lits: &Vec<String>) -> (r: String)
    requires
        names@.len() == t.fields@.len(),
        t.fields@.len() <= MAX_FIELDS,
    ensures
        r@ == table_text(*t, texts_view(names@), strings_view(doc_lits@)),
{
    let mut out = reader_code(t, names, doc_lits);
    let b = builder_code(t, names);
    out.append(b.as_str());
    out
}

/// The text of every field of `t`, see `FieldText`.
pub fn field_texts(t: &Table) -> (r: Vec<FieldText>)
    ensures
        r@.len() == t.fields@.len(),
        field_texts_ok(*t, texts_view(r@)),
{
    proof {
        reveal_strlit("");
    }
    let mut r: Vec<FieldText> = Vec::new();
    let mut i: usize = 0;
    while i < t.fields.len()
        invariant
            i <= t.fields@.len(),
            r@.len() == i,
            forall|j: int| 0 <= j < i ==> {
                let f = t.fields@[j];
                &&& (#[trigger] r@[j]).snake@ == snake_case_of(f.ident.raw@)
                &&& r@[j].shouty@ == shouty_snake_case_of(f.ident.raw@)
                &&& quoted(r@[j].snake@, r@[j].required_lit@)
                &&& default_doc_quoted(arg_type_text(f.ty, "'a"@), f.ty, f.default_value, r@[j].default_doc_lit@)
            },
        decreases t.fields@.len() - i,
    {
        let f = &t.fields[i];
        let raw = f.ident.raw.as_str();
        let snake = snake_case(raw);
        let required_lit = string_literal(snake.as_str());
        let default_doc_lit = match &f.default_value {
            Some(v) => {
                let arg_ty = arg_type_code(&f.ty, "'a");
                let source = default_doc_source_code(arg_ty.as_str(), &f.ty, v);
                string_literal(source.as_str())
            },
            None => String::new(),
        };
        r.push(FieldText { snake, shouty: shouty_snake_case(raw), required_lit, default_doc_lit });
        i = i + 1;
    }
    r
}

/// What the generated code of a table is, whatever literals quoting gave: the template
/// for names as case conversion gives them and for some quoting of each literal.
pub open spec fn table_rel(t: Table, s: Seq<char>) -> bool {
    exists|texts: Seq<(Seq<char>, Seq<char>, Seq<char>, Seq<char>)>, doc: Seq<Seq<char>>|
        field_texts_ok(t, texts) && comment_quoted(t.doc, doc) && s == #[trigger] table_text(t, texts, doc)
}

/// Generates the code of a table: its reader, offset constants, accessors, argument
/// record and builder.
pub fn table_code(t: &Table) -> (r: String)
    requires
        t.fields@.len() <= MAX_FIELDS,
    ensures
        table_rel(*t, r@),
{
    let texts = field_texts(t);
    let doc = comment_literals(&t.doc);
    let r = table_code_named(t, &texts, &doc);
    assert(field_texts_ok(*t, texts_view(texts@)) && comment_quoted(t.doc, strings_view(doc@))
        && r@ == table_text(*t, texts_view(texts@), strings_view(doc@)));
    r
}

} // verus!

verus! {

/// The offset constant emitted for the field in slot `i` has the value `4 + 2 * i`, and
/// the constants follow the fields' declaration order.
pub proof fn lemma_offset_constants(t: Table, names: Seq<(Seq<char>, Seq<char>, Seq<char>, Seq<char>)>, i: int)
    requires
        0 <= i < t.fields@.len(),
        names.len() == t.fields@.len(),
    ensures
        parts_text(Part::OffsetConst, t.ident.raw@, t.fields@, names, (i + 1) as nat) == parts_text(
            Part::OffsetConst,
            t.ident.raw@,
            t.fields@,
            names,
            i as nat,
        ) + ("pub const VT_"@ + names[i].1 + ": butte::VOffsetT = "@ + int_text(4 + 2 * i) + ";\n"@),
{
}

} // verus!

verus! {

/// The generated builder follows the slot rules of `SlotTable`: a field's add method
/// writes with `push_slot` and the field's default (stored only when it differs) exactly
/// when the field is a scalar with a default, and with `push_slot_always` otherwise; and
/// `finish` checks a field's slot exactly when the field has no default.
pub proof fn lemma_builder_slot_rules(
    tname: Seq<char>,
    f: Field,
    i: int,
    names: (Seq<char>, Seq<char>, Seq<char>, Seq<char>),
)
    requires
        quoted(names.0, names.2),
    ensures
        (part_text(Part::RequiredCheck, tname, f, i, names).len() > 0) == f.default_value.is_none(),
        is_scalar_spec(f.ty) && f.default_value.is_some() ==> push_text(tname, names.1, f)
            == "self.fbb.push_slot::<"@ + arg_type_text(f.ty, "'_"@) + ">("@ + offset_path_text(tname, names.1)
            + ", "@ + f.ident.raw@ + ", "@ + default_value_text(
            arg_type_text(f.ty, "'_"@),
            f.ty,
            f.default_value.unwrap(),
        ) + ");\n"@,
        !(is_scalar_spec(f.ty) && f.default_value.is_some()) ==> push_text(tname, names.1, f)
            == "self.fbb.push_slot_always::<"@ + arg_type_text(f.ty, "'_"@) + ">("@ + offset_path_text(
            tname,
            names.1,
        ) + ", "@ + f.ident.raw@ + ");\n"@,
{
}

/// Whether every literal a table's code quotes is plain text: its documentation lines,
/// the snake_case names of its fields and the sentences documenting their defaults.
pub open spec fn table_plain(t: Table) -> bool {
    &&& forall|j: int| 0 <= j < t.doc.lines@.len() ==> is_plain_text(#[trigger] t.doc.lines@[j]@)
    &&& forall|j: int|
        0 <= j < t.fields@.len() ==> {
            let f = #[trigger] t.fields@[j];
            &&& is_plain_text(snake_case_of(f.ident.raw@))
            &&& f.default_value matches Some(v) ==> is_plain_text(
                default_doc_source(arg_type_text(f.ty, "'a"@), f.ty, v),
            )
        }
}

/// Generating a table is deterministic when every literal it quotes is plain text: any
/// two generated codes of the table are equal. (Other text may be escaped differently
/// inside and outside a procedural macro.)
pub proof fn lemma_table_text_determined(t: Table, a: Seq<char>, b: Seq<char>)
    requires
        table_rel(t, a),
        table_rel(t, b),
        table_plain(t),
    ensures
        a == b,
{
    let (x1, d1) = choose|x: Seq<(Seq<char>, Seq<char>, Seq<char>, Seq<char>)>, d: Seq<Seq<char>>|
        field_texts_ok(t, x) && comment_quoted(t.doc, d) && a == #[trigger] table_text(t, x, d);
    let (x2, d2) = choose|x: Seq<(Seq<char>, Seq<char>, Seq<char>, Seq<char>)>, d: Seq<Seq<char>>|
        field_texts_ok(t, x) && comment_quoted(t.doc, d) && b == #[trigger] table_text(t, x, d);
    assert forall|j: int| 0 <= j < x1.len() implies x1[j] == x2[j] by {
        let f = t.fields@[j];
        assert(x1[j].0 == x2[j].0);
        assert(x1[j].2 == x2[j].2);
        match f.default_value {
            Some(v) => {
                assert(x1[j].3 == x2[j].3);
            },
            None => {
                assert(x1[j].3 =~= x2[j].3);
            },
        }
    }
    assert(x1 =~= x2);
    assert forall|j: int| 0 <= j < d1.len() implies d1[j] == d2[j] by {
        assert(is_plain_text(t.doc.lines@[j]@));
    }
    assert(d1 =~= d2);
}

} // verus!
