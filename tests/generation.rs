use butte_build::ast::{self, Comment, DefaultValue, DottedIdent, FloatConstant, Scalar};
use butte_build::enums::{enum_code, enum_code_named, union_code};
use butte_build::ir::{
    CustomType, CustomTypeRef, Enum, EnumBaseType, EnumVal, Field, Ident, Namespace, Node, Root,
    Table, Type, Union, UnionVariant,
};
use butte_build::layout::{discriminants, field_offset};
use butte_build::nodes::{namespace_code, root_code, rpc_code, rpc_code_named};
use butte_build::render::{comment_code, default_value_code, dotted_code, type_code};
use butte_build::table::{table_code, table_code_named, FieldText};

fn no_doc() -> Comment {
    Comment { lines: vec![] }
}

fn field(name: &str, ty: Type, default_value: Option<DefaultValue>) -> Field {
    Field { ident: Ident::new(name), ty, default_value, doc: no_doc() }
}

fn three_field_table() -> Table {
    Table {
        ident: Ident::new("Monster"),
        fields: vec![
            field("hp", Type::Short, Some(DefaultValue::Scalar(Scalar::Integer(100)))),
            field("name", Type::String, None),
            field("mana", Type::UInt8, None),
        ],
        doc: no_doc(),
    }
}

fn color_enum() -> Enum {
    Enum {
        ident: Ident::new("Color"),
        values: vec![
            EnumVal { ident: Ident::new("A"), value: None },
            EnumVal { ident: Ident::new("B"), value: Some(5) },
            EnumVal { ident: Ident::new("C"), value: None },
        ],
        base_type: EnumBaseType::UByte,
        doc: no_doc(),
    }
}

fn field_text(snake: &str, shouty: &str, required_lit: &str) -> FieldText {
    FieldText {
        snake: snake.to_string(),
        shouty: shouty.to_string(),
        required_lit: required_lit.to_string(),
        default_doc_lit: String::new(),
    }
}

fn custom(name: &str, ty: CustomType) -> Type {
    Type::Custom(CustomTypeRef { ident: Ident::new(name), ty })
}

#[test]
fn offsets_of_three_fields() {
    assert_eq!(field_offset(0), 4);
    assert_eq!(field_offset(1), 6);
    assert_eq!(field_offset(2), 8);
    let code = table_code(&three_field_table());
    assert!(code.contains("pub const VT_HP: butte::VOffsetT = 4;\n"));
    assert!(code.contains("pub const VT_NAME: butte::VOffsetT = 6;\n"));
    assert!(code.contains("pub const VT_MANA: butte::VOffsetT = 8;\n"));
}

#[test]
fn discriminants_follow_position() {
    let e = color_enum();
    assert_eq!(discriminants(&e.values), vec![0, 5, 2]);
    let code = enum_code(&e);
    assert!(code.contains("A = 0_u8,\nB = 5_u8,\nC = 2_u8,\n"));
    assert!(!code.contains("C = 6_u8"));
    assert!(code.contains("2_u8 => Ok(<Color>::C),\n"));
    assert!(code.contains("<Color>::B => 5_u8,\n"));
    assert!(code.contains("_ => Err(butte::Error::UnknownEnumVariant),"));
    assert!(code.contains("pub fn enum_name_color(e: Color) -> &'static str {\nmatch e {\nColor::A => \"A\",\n"));
    assert!(code.starts_with("#[repr(u8)]\n"));
}

#[test]
fn field_names_are_case_converted() {
    let t = Table {
        ident: Ident::new("Stat"),
        fields: vec![field("hitPoints", Type::Int, None)],
        doc: no_doc(),
    };
    let code = table_code(&t);
    assert!(code.contains("pub const VT_HIT_POINTS: butte::VOffsetT = 4;\n"));
    assert!(code.contains("pub fn hit_points(&self) -> Result<Option<i32>, butte::Error> {\nself.table.get::<i32>(Stat::VT_HIT_POINTS)\n}\n"));
    assert!(code.contains("self.fbb.required(o, Stat::VT_HIT_POINTS, \"hit_points\");\n"));
    assert!(code.contains("pub fn add_hitPoints(&mut self, hitPoints: i32) {\n"));
}

#[test]
fn required_checks_only_for_fields_without_default() {
    let code = table_code(&three_field_table());
    assert!(!code.contains("self.fbb.required(o, Monster::VT_HP"));
    assert!(code.contains("self.fbb.required(o, Monster::VT_NAME, \"name\");\n"));
    assert!(code.contains("self.fbb.required(o, Monster::VT_MANA, \"mana\");\n"));
}

#[test]
fn defaulted_scalar_uses_defaulted_push() {
    let code = table_code(&three_field_table());
    assert!(code.contains("self.fbb.push_slot::<i16>(Monster::VT_HP, hp, 100i16);\n"));
    assert!(code.contains("self.fbb.push_slot_always::<butte::WIPOffset::<&'_ str>>(Monster::VT_NAME, name);\n"));
    assert!(code.contains("self.fbb.push_slot_always::<u8>(Monster::VT_MANA, mana);\n"));
    assert!(code.contains("#[doc = \" The default value for this field is __100i16__\"]\npub hp: i16,\n"));
    assert!(code.contains("pub struct MonsterArgs<'a> {\n"));
    assert!(code.contains("args: &'args MonsterArgs<'args>,\n"));
}

#[test]
fn args_without_borrowed_field_have_no_lifetime() {
    let t = Table {
        ident: Ident::new("Point"),
        fields: vec![field("x", Type::Float, None), field("y", Type::Float, None)],
        doc: no_doc(),
    };
    let code = table_code(&t);
    assert!(code.contains("pub struct PointArgs {\n"));
    assert!(code.contains("args: &'args PointArgs,\n"));
}

#[test]
fn union_field_accessor_dispatches_on_tag() {
    let any = custom(
        "Any",
        CustomType::Union {
            enum_ident: Ident::new("AnyType"),
            variants: vec![
                UnionVariant { ident: Ident::new("A"), ty: custom("Foo", CustomType::Table) },
                UnionVariant { ident: Ident::new("B"), ty: custom("Bar", CustomType::Table) },
            ],
        },
    );
    let t = Table { ident: Ident::new("Holder"), fields: vec![field("thing", any, None)], doc: no_doc() };
    let code = table_code(&t);
    let expected = "pub fn thing(&self) -> Result<Option<Any<'a>>, butte::Error> {\n\
        Ok(match self.thing_type()? {\n\
        Some(AnyType::A) => self.table.get::<butte::ForwardsUOffset::<Foo<'a>>>(Holder::VT_THING)?.map(Any::A),\n\
        Some(AnyType::B) => self.table.get::<butte::ForwardsUOffset::<Bar<'a>>>(Holder::VT_THING)?.map(Any::B),\n\
        None | Some(AnyType::None) => None,\n})\n}\n";
    assert!(code.contains(expected));
    assert!(code.contains("pub thing: butte::WIPOffset<butte::UnionWIPOffset>,\n"));
    assert!(code.contains("pub struct HolderArgs {\n"));
}

#[test]
fn union_declaration_and_tags() {
    let u = Union {
        ident: Ident::new("Any"),
        enum_ident: Ident::new("AnyType"),
        variants: vec![
            UnionVariant { ident: Ident::new("A"), ty: custom("Foo", CustomType::Table) },
            UnionVariant { ident: Ident::new("B"), ty: custom("Bar", CustomType::Table) },
        ],
        doc: no_doc(),
    };
    let expected = "#[derive(Copy, Clone, Debug, PartialEq)]\npub enum Any<'a> {\nA(Foo<'a>),\nB(Bar<'a>),\n}\n\
        impl Any<'_> {\npub fn get_type(&self) -> AnyType {\nmatch self {\n\
        Any::A(..) => AnyType::A,\nAny::B(..) => AnyType::B,\n}\n}\n}\n";
    assert_eq!(union_code(&u), expected);
}

#[test]
fn type_spellings() {
    assert_eq!(type_code(&Type::String, "'a", ""), "&'a str");
    assert_eq!(type_code(&Type::String, "'a", "butte::WIPOffset"), "butte::WIPOffset::<&'a str>");
    assert_eq!(type_code(&Type::Array(Box::new(Type::Int)), "'a", ""), "butte::Vector<'a, i32>");
    assert_eq!(type_code(&Type::Long, "'a", "w"), "i64");
    assert_eq!(type_code(&Type::Int64, "'a", "w"), "i64");
    assert_eq!(type_code(&custom("Color", CustomType::Enum { base_type: EnumBaseType::UByte }), "'a", "w"), "Color");
    assert_eq!(type_code(&custom("Foo", CustomType::Table), "'a", ""), "Foo<'a>");
    assert_eq!(type_code(&custom("Foo", CustomType::Table), "'a", "W"), "W::<Foo<'a>>");
    assert_eq!(
        type_code(&Type::Array(Box::new(Type::String)), "'b", "W"),
        "butte::Vector<'b, W::<&'b str>>"
    );
}

#[test]
fn default_values_take_field_width() {
    let five = DefaultValue::Scalar(Scalar::Integer(5));
    assert_eq!(default_value_code("u8", &Type::UByte, &five), "5u8");
    assert_eq!(default_value_code("f32", &Type::Float, &five), "5f32");
    assert_eq!(default_value_code("bool", &Type::Bool, &five), "5i32");
    let half = DefaultValue::Scalar(Scalar::Float(FloatConstant::new("1.5")));
    assert_eq!(default_value_code("f32", &Type::Float32, &half), "1.5f32");
    assert_eq!(default_value_code("f64", &Type::Double, &half), "1.5f64");
    let variant = DefaultValue::Ident(ast::Ident::new("Red"));
    let color = custom("Color", CustomType::Enum { base_type: EnumBaseType::UByte });
    assert_eq!(default_value_code("Color", &color, &variant), "<Color>::Red");
}

#[test]
fn comment_lines_keep_order() {
    let c = Comment { lines: vec![" first".to_string(), " second".to_string()] };
    assert_eq!(comment_code(&c), "#[doc = \" first\"]\n#[doc = \" second\"]\n");
}

#[test]
fn dotted_paths_climb_modules() {
    let d = DottedIdent { parts: vec![ast::Ident::new("a"), ast::Ident::new("b"), ast::Ident::new("Req")] };
    assert_eq!(dotted_code(&d), "super::super::a::b::Req");
    let single = DottedIdent { parts: vec![ast::Ident::new("Req")] };
    assert_eq!(dotted_code(&single), "Req");
}

#[test]
fn service_declares_one_method_per_rpc() {
    let rpc = ast::Rpc {
        name: ast::Ident::new("Monster"),
        methods: vec![ast::RpcMethod {
            name: ast::Ident::new("GetStats"),
            request_type: DottedIdent { parts: vec![ast::Ident::new("Req")] },
            response_type: DottedIdent { parts: vec![ast::Ident::new("game"), ast::Ident::new("Resp")] },
            metadata: None,
            doc: no_doc(),
        }],
        doc: Comment { lines: vec![" Stats.".to_string()] },
    };
    assert_eq!(
        rpc_code(&rpc),
        "#[doc = \" Stats.\"]\npub trait MonsterService {\nfn get_stats(request: Req) -> super::game::Resp;\n}\n"
    );
}

fn nested_root() -> Root {
    let t = Table { ident: Ident::new("T"), fields: vec![field("x", Type::Int, None)], doc: no_doc() };
    let c = Namespace { ident: Ident::new("c"), nodes: vec![Node::Table(t)] };
    let b = Namespace { ident: Ident::new("b"), nodes: vec![Node::Namespace(c)] };
    let a = Namespace { ident: Ident::new("a"), nodes: vec![Node::Namespace(b)] };
    Root { nodes: vec![Node::Namespace(a)] }
}

#[test]
fn namespaces_nest_outer_to_inner() {
    let root = nested_root();
    let code = root_code(&root);
    let t = Table { ident: Ident::new("T"), fields: vec![field("x", Type::Int, None)], doc: no_doc() };
    let table = table_code(&t);
    assert_eq!(code, format!("pub mod a {{\npub mod b {{\npub mod c {{\n{}}}\n}}\n}}\n", table));
    if let Node::Namespace(a) = &root.nodes[0] {
        assert_eq!(namespace_code(a), code);
    } else {
        panic!("expected a namespace");
    }
}

#[test]
fn generation_is_deterministic() {
    let root = nested_root();
    assert_eq!(root_code(&root), root_code(&nested_root()));
    let mut nodes = vec![Node::Enum(color_enum()), Node::Table(three_field_table())];
    nodes.push(Node::Namespace(Namespace { ident: Ident::new("empty"), nodes: vec![] }));
    let r = Root { nodes };
    let first = root_code(&r);
    assert_eq!(first, root_code(&r));
    assert!(first.starts_with(&enum_code(&color_enum())));
    assert!(first.ends_with("pub mod empty {\n}\n"));
}

#[test]
fn oversized_table_is_refused() {
    let fields = (0..32767).map(|i| field(&format!("f{}", i), Type::Bool, None)).collect();
    let t = Table { ident: Ident::new("Huge"), fields, doc: no_doc() };
    assert!(butte_build::nodes::generate(&Root { nodes: vec![Node::Table(t)] }).is_none());
    let small = Root { nodes: vec![Node::Table(three_field_table())] };
    assert_eq!(butte_build::nodes::generate(&small), Some(root_code(&small)));
}

#[test]
fn table_from_given_names() {
    let t = Table { ident: Ident::new("P"), fields: vec![field("xPos", Type::Int, None)], doc: no_doc() };
    let names = vec![field_text("x_pos", "X_POS", "\"x_pos\"")];
    let code = table_code_named(&t, &names, &vec![]);
    assert_eq!(code, table_code(&t));
    assert!(code.contains("pub const VT_X_POS: butte::VOffsetT = 4;\n"));
    let other = vec![field_text("s", "S", "r#\"s\"#")];
    let other_code = table_code_named(&t, &other, &vec!["\" Point.\"".to_string()]);
    assert!(other_code.contains("self.fbb.required(o, P::VT_S, r#\"s\"#);\n"));
    assert!(other_code.contains("#[derive(Copy, Clone, Debug, PartialEq)]\n#[doc = \" Point.\"]\npub struct P<'a> {"));
    assert!(other_code.contains("pub fn s(&self) -> Result<Option<i32>, butte::Error> {\nself.table.get::<i32>(P::VT_S)\n}\n"));
}

#[test]
fn enum_from_given_name() {
    let quoted_names: Vec<String> = vec!["\"A\"".to_string(), "\"B\"".to_string(), "\"C\"".to_string()];
    let code = enum_code_named(&color_enum(), "shade", &quoted_names, &vec![]);
    assert!(code.contains("pub fn enum_name_shade(e: Color) -> &'static str {\n"));
    assert_eq!(enum_code_named(&color_enum(), "color", &quoted_names, &vec![]), enum_code(&color_enum()));
    let other: Vec<String> = vec!["a".to_string(), "b".to_string(), "c".to_string()];
    assert!(enum_code_named(&color_enum(), "x", &other, &vec![]).contains("Color::C => c,\n"));
}

#[test]
fn service_from_given_names() {
    let rpc = ast::Rpc {
        name: ast::Ident::new("S"),
        methods: vec![ast::RpcMethod {
            name: ast::Ident::new("Ping"),
            request_type: DottedIdent { parts: vec![ast::Ident::new("A")] },
            response_type: DottedIdent { parts: vec![ast::Ident::new("B")] },
            metadata: None,
            doc: Comment { lines: vec![" Sends.".to_string()] },
        }],
        doc: no_doc(),
    };
    assert_eq!(
        rpc_code_named(&rpc, &vec!["go".to_string()], &vec![], &vec![vec!["\" Sends.\"".to_string()]]),
        "pub trait SService {\n#[doc = \" Sends.\"]\nfn go(request: A) -> B;\n}\n"
    );
    assert_eq!(rpc_code(&rpc), "pub trait SService {\n#[doc = \" Sends.\"]\nfn ping(request: A) -> B;\n}\n");
}

#[test]
fn surface_builders() {
    let t = ast::table(ast::Ident::new("T"), vec![]);
    assert_eq!(t.kind, ast::ProductKind::Table);
    assert_eq!(t.name, ast::Ident::new("T"));
    assert!(t.metadata.is_none());
    let s = ast::struct_(ast::Ident::new("S"), vec![]);
    assert_eq!(s.kind, ast::ProductKind::Struct);
}
