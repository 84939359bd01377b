use fsharp_definitions::bytes::byte_string;
use fsharp_definitions::mapping::type_to_fs;
use fsharp_definitions::model::{
    Body, Container, Context, Diagnostic, DiagnosticKind, Field, Primitive, Style, TagConfig,
    TypeDescriptor, Variant,
};
use fsharp_definitions::output::{render, Options};
use fsharp_definitions::tagging::TagStrategy;

fn field(name: &str, ty: TypeDescriptor) -> Field {
    Field {
        name: name.to_string(),
        ty,
        skip: false,
        type_override: None,
        is_byte_buffer: false,
        flatten: false,
    }
}

fn skipped(name: &str, ty: TypeDescriptor) -> Field {
    let mut f = field(name, ty);
    f.skip = true;
    f
}

fn int64_ty() -> TypeDescriptor {
    TypeDescriptor::Primitive(Primitive::Int)
}

fn text() -> TypeDescriptor {
    TypeDescriptor::Primitive(Primitive::Text)
}

fn bytes_list() -> TypeDescriptor {
    TypeDescriptor::ListLike(Box::new(TypeDescriptor::Primitive(Primitive::U8)))
}

fn variant(name: &str, style: Style, fields: Vec<Field>) -> Variant {
    Variant { name: name.to_string(), doc: String::new(), skip: false, style, fields }
}

fn unit(name: &str) -> Variant {
    variant(name, Style::Unit, vec![])
}

fn tagging(tag: Option<&str>, content: Option<&str>, untagged: bool) -> TagConfig {
    TagConfig {
        tag: tag.map(|t| t.to_string()),
        content: content.map(|c| c.to_string()),
        untagged,
    }
}

fn union(name: &str, variants: Vec<Variant>, tags: TagConfig) -> Container {
    Container {
        name: name.to_string(),
        doc: String::new(),
        body: Body::Enum { variants, tagging: tags },
    }
}

fn record(name: &str, style: Style, fields: Vec<Field>, transparent: bool) -> Container {
    Container {
        name: name.to_string(),
        doc: String::new(),
        body: Body::Struct { style, fields, transparent },
    }
}

fn plain() -> Options {
    Options { enable_factory: false, enable_handler: false }
}

fn ok(c: &Container, opts: &Options) -> String {
    match render(c, opts) {
        Ok(t) => t,
        Err(d) => panic!("{} diagnostics", d.len()),
    }
}

fn errs(c: &Container) -> Vec<Diagnostic> {
    match render(c, &plain()) {
        Ok(t) => panic!("rendered {}", t),
        Err(d) => d,
    }
}

fn map_one(ty: &TypeDescriptor, bytes: bool) -> (String, Vec<Diagnostic>) {
    let mut diags = Vec::new();
    let ctx = Context { container: "C".to_string(), variant: None };
    let t = type_to_fs(ty, bytes, &ctx, &"f".to_string(), &mut diags);
    (t, diags)
}

#[test]
fn adjacent_struct_variant_hoists_alias() {
    let c = union(
        "Msg",
        vec![variant("A", Style::Struct, vec![field("x", int64_ty())])],
        tagging(Some("kind"), Some("fields"), false),
    );
    assert_eq!(ok(&c, &plain()), "type MsgA = { x: int64 }\ntype Msg =\n  | A of MsgA");
}

#[test]
fn unit_union_is_plain_enumeration_after_skips() {
    let mut b = unit("B");
    b.skip = true;
    let c = union("E", vec![unit("A"), b, unit("C")], tagging(None, None, false));
    assert_eq!(ok(&c, &plain()), "type E =\n  | A = 0\n  | C = 1");
}

#[test]
fn untagged_unit_union_is_plain_enumeration() {
    let c = union("U", vec![unit("X"), unit("Y"), unit("Z")], tagging(None, None, true));
    assert_eq!(ok(&c, &plain()), "type U =\n  | X = 0\n  | Y = 1\n  | Z = 2");
}

#[test]
fn internally_tagged_unit_union_stays_a_union() {
    let c = union("I", vec![unit("X"), unit("Y")], tagging(Some("t"), None, false));
    assert_eq!(ok(&c, &plain()), "type I =\n  | X\n  | Y");
}

#[test]
fn skipped_field_is_absent_from_record() {
    let c = record(
        "P",
        Style::Struct,
        vec![field("a", int64_ty()), skipped("b", text()), field("c", text())],
        false,
    );
    assert_eq!(ok(&c, &plain()), "type P = { a: int64; c: string }");
}

#[test]
fn skipped_items_are_absent_from_helpers() {
    let mut gone = variant("Gone", Style::Newtype, vec![field("0", int64_ty())]);
    gone.skip = true;
    let c = union(
        "S",
        vec![
            variant("E2", Style::Struct, vec![field("key", int64_ty()), skipped("b", int64_ty())]),
            variant("F", Style::Tuple, vec![field("0", int64_ty()), skipped("1", int64_ty()), field("2", text())]),
            gone,
            unit("A"),
        ],
        tagging(Some("kind"), Some("fields"), false),
    );
    let opts = Options { enable_factory: true, enable_handler: true };
    let expected = "type SE2 = { key: int64 }\ntype SF = int64 * string\ntype S =\n  | E2 of SE2\n  | F of SF\n  | A\ntype SFactory<'R>(f: S -> 'R) =\n  member _.E2(content: SE2) = f (E2 content)\n  member _.F(content: SF) = f (F content)\n  member _.A() = f A\ntype SHandler<'R> =\n  abstract E2: SE2 -> 'R\n  abstract F: SF -> 'R\n  abstract A: unit -> 'R\nlet applyS (handler: SHandler<'R>) (value: S) : 'R =\n  match value with\n  | E2 content -> handler.E2 content\n  | F content -> handler.F content\n  | A -> handler.A ()";
    let out = ok(&c, &opts);
    assert_eq!(out, expected);
    assert!(!out.contains("Gone"));
    assert!(!out.contains(" b:"));
}

#[test]
fn transparent_single_field_record_is_newtype() {
    let t = record("W", Style::Struct, vec![field("inner", text())], true);
    let n = record("W", Style::Newtype, vec![field("0", text())], false);
    assert_eq!(ok(&t, &plain()), ok(&n, &plain()));
    assert_eq!(ok(&t, &plain()), "type W = string");
}

#[test]
fn opaque_single_field_record_stays_a_record() {
    let t = record("W", Style::Struct, vec![field("inner", text())], false);
    assert_eq!(ok(&t, &plain()), "type W = { inner: string }");
}

#[test]
fn byte_buffer_renders_as_string() {
    let mut buf = field("buffer", bytes_list());
    buf.is_byte_buffer = true;
    let mut buf2 = field("0", bytes_list());
    buf2.is_byte_buffer = true;
    let r = record("MyBytes", Style::Struct, vec![buf], false);
    assert_eq!(ok(&r, &plain()), "type MyBytes = { buffer: string }");
    let n = record("B", Style::Newtype, vec![buf2], false);
    assert_eq!(ok(&n, &plain()), "type B = string");
    let plain_list = record("L", Style::Newtype, vec![field("0", bytes_list())], false);
    assert_eq!(ok(&plain_list, &plain()), "type L = int64 list");
}

#[test]
fn byte_buffer_in_union_payload_renders_as_string() {
    let mut buf = field("data", bytes_list());
    buf.is_byte_buffer = true;
    let c = union("U", vec![variant("Blob", Style::Struct, vec![buf])], tagging(None, None, false));
    assert_eq!(ok(&c, &plain()), "type UBlob = { data: string }\ntype U =\n  | Blob of UBlob");
}

#[test]
fn rendering_twice_gives_the_same_text() {
    let c = union(
        "FrontendMessage",
        vec![
            variant("Init", Style::Struct, vec![field("id", text())]),
            variant("Count", Style::Newtype, vec![field("0", int64_ty())]),
        ],
        tagging(Some("tag"), Some("fields"), false),
    );
    let opts = Options { enable_factory: true, enable_handler: true };
    assert_eq!(ok(&c, &opts), ok(&c, &opts));
}

#[test]
fn content_without_tag_is_configuration_error() {
    let c = union(
        "Bad",
        vec![variant("A", Style::Struct, vec![field("x", TypeDescriptor::Unsupported("fn".to_string()))])],
        tagging(None, Some("fields"), false),
    );
    let d = errs(&c);
    assert_eq!(d.len(), 1);
    assert_eq!(d[0].container, "Bad");
    assert!(d[0].field.is_none() && d[0].variant.is_none());
    assert!(matches!(d[0].kind, DiagnosticKind::Configuration));
}

#[test]
fn empty_tag_is_configuration_error() {
    let c = union("Bad", vec![unit("A")], tagging(Some(""), None, false));
    let d = errs(&c);
    assert_eq!(d.len(), 1);
    assert!(matches!(d[0].kind, DiagnosticKind::Configuration));
}

#[test]
fn tag_strategy_resolution() {
    assert!(matches!(
        TagStrategy::resolve(&tagging(Some("k"), Some("c"), false)),
        Some(TagStrategy::Adjacent { .. })
    ));
    assert!(matches!(
        TagStrategy::resolve(&tagging(Some("k"), None, false)),
        Some(TagStrategy::Internal { .. })
    ));
    assert!(matches!(TagStrategy::resolve(&tagging(None, None, false)), Some(TagStrategy::External)));
    assert!(matches!(TagStrategy::resolve(&tagging(None, None, true)), Some(TagStrategy::Untagged)));
    assert!(TagStrategy::resolve(&tagging(None, Some("c"), true)).is_none());
}

#[test]
fn flatten_is_reported_per_field() {
    let mut a = field("a", int64_ty());
    a.flatten = true;
    let mut b = field("b", int64_ty());
    b.flatten = true;
    let c = record("F", Style::Struct, vec![a, b, field("c", int64_ty())], false);
    let d = errs(&c);
    assert_eq!(d.len(), 2);
    assert_eq!(d[0].field.as_deref(), Some("a"));
    assert_eq!(d[1].field.as_deref(), Some("b"));
    assert!(matches!(d[0].kind, DiagnosticKind::Flatten));
    assert_eq!(d[0].container, "F");
    assert!(d[0].variant.is_none());
}

#[test]
fn every_unsupported_shape_is_reported() {
    let generic = TypeDescriptor::Named { path: vec!["Value".to_string()], args: vec![int64_ty()] };
    let empty = TypeDescriptor::Named { path: vec![], args: vec![] };
    let c = union(
        "M",
        vec![
            variant("A", Style::Struct, vec![field("g", generic), field("f", TypeDescriptor::Unsupported("bare fn".to_string()))]),
            variant("B", Style::Newtype, vec![field("0", empty)]),
        ],
        tagging(Some("t"), None, false),
    );
    let d = errs(&c);
    assert_eq!(d.len(), 3);
    match &d[0].kind {
        DiagnosticKind::GenericInstantiation(n) => assert_eq!(n, "Value"),
        _ => panic!("expected a generic instantiation"),
    }
    match &d[1].kind {
        DiagnosticKind::Unsupported(r) => assert_eq!(r, "bare fn"),
        _ => panic!("expected an unsupported shape"),
    }
    assert!(matches!(d[2].kind, DiagnosticKind::EmptyPath));
    assert_eq!(d[1].field.as_deref(), Some("f"));
    assert_eq!(d[1].variant.as_deref(), Some("A"));
    assert_eq!(d[2].variant.as_deref(), Some("B"));
    assert_eq!(d[2].container, "M");
}

#[test]
fn unsupported_shape_leaves_visible_placeholder() {
    let (t, d) = map_one(&TypeDescriptor::Unsupported("trait object Foo".to_string()), false);
    assert_eq!(t, "(* unsupported: trait object Foo *)");
    assert_eq!(d.len(), 1);
    let g = TypeDescriptor::Named { path: vec!["a".to_string(), "Wrapper".to_string()], args: vec![int64_ty()] };
    let (t, d) = map_one(&g, false);
    assert_eq!(t, "(* unsupported: generic a::Wrapper *)");
    assert_eq!(d.len(), 1);
}

#[test]
fn mapping_table() {
    let cases: Vec<(TypeDescriptor, &str)> = vec![
        (TypeDescriptor::Primitive(Primitive::U8), "int64"),
        (int64_ty(), "int64"),
        (TypeDescriptor::Primitive(Primitive::Float), "float"),
        (TypeDescriptor::Primitive(Primitive::Bool), "bool"),
        (text(), "string"),
        (TypeDescriptor::Primitive(Primitive::Duration), "{ secs: int64; nanos: int64 }"),
        (
            TypeDescriptor::Primitive(Primitive::SystemTime),
            "{ secs_since_epoch: int64; nanos_since_epoch: int64 }",
        ),
        (TypeDescriptor::ListLike(Box::new(text())), "string list"),
        (TypeDescriptor::MapLike(Box::new(text()), Box::new(int64_ty())), "Map<string, int64>"),
        (TypeDescriptor::SetLike(Box::new(int64_ty())), "Set<int64>"),
        (TypeDescriptor::Optional(Box::new(text())), "string option"),
        (TypeDescriptor::ResultLike(Box::new(text()), Box::new(int64_ty())), "Result<string, int64>"),
        (TypeDescriptor::Tuple(vec![int64_ty(), text(), TypeDescriptor::Primitive(Primitive::Bool)]), "(int64 * string * bool)"),
        (TypeDescriptor::Tuple(vec![]), "unit"),
        (TypeDescriptor::Reference(Box::new(TypeDescriptor::Reference(Box::new(text())))), "string"),
        (TypeDescriptor::Named { path: vec!["crate".to_string(), "Point".to_string()], args: vec![] }, "Point"),
        (TypeDescriptor::Named { path: vec!["serde_json".to_string(), "Value".to_string()], args: vec![] }, "obj"),
        (TypeDescriptor::Named { path: vec!["chrono".to_string(), "DateTime".to_string()], args: vec![int64_ty()] }, "string"),
        (
            TypeDescriptor::Optional(Box::new(TypeDescriptor::ListLike(Box::new(TypeDescriptor::Tuple(vec![int64_ty(), text()]))))),
            "(int64 * string) list option",
        ),
    ];
    for (ty, expected) in cases {
        let (t, d) = map_one(&ty, false);
        assert_eq!(t, expected);
        assert!(d.is_empty());
    }
}

#[test]
fn byte_flag_reaches_nested_lists() {
    let ty = TypeDescriptor::Optional(Box::new(bytes_list()));
    assert_eq!(map_one(&ty, true).0, "string option");
    assert_eq!(map_one(&ty, false).0, "int64 list option");
}

#[test]
fn type_override_is_verbatim() {
    let mut f = field("when", TypeDescriptor::Unsupported("never mapped".to_string()));
    f.type_override = Some("System.DateTime".to_string());
    let c = record("T", Style::Struct, vec![f, field("n", int64_ty())], false);
    assert_eq!(ok(&c, &plain()), "type T = { when: System.DateTime; n: int64 }");
}

#[test]
fn tuple_and_unit_records() {
    let t = record("Pair", Style::Tuple, vec![field("0", int64_ty()), field("1", text())], false);
    assert_eq!(ok(&t, &plain()), "type Pair = int64 * string");
    let u = record("Nothing", Style::Unit, vec![], false);
    assert_eq!(ok(&u, &plain()), "type Nothing = unit");
    let all_skipped = record("Gone", Style::Struct, vec![skipped("a", int64_ty())], false);
    assert_eq!(ok(&all_skipped, &plain()), "type Gone = unit");
}

#[test]
fn doc_comments_precede_declaration_and_clauses() {
    let mut v = unit("Ping");
    v.doc = "Checks liveness.".to_string();
    let mut c = union("Cmd", vec![v, variant("Say", Style::Newtype, vec![field("0", text())])], tagging(None, None, false));
    c.doc = "A command.\nSent by the client.".to_string();
    assert_eq!(
        ok(&c, &plain()),
        "/// A command.\n/// Sent by the client.\ntype Cmd =\n  /// Checks liveness.\n  | Ping\n  | Say of string"
    );
}

#[test]
fn struct_variant_without_kept_fields_is_unit() {
    let c = union(
        "V",
        vec![variant("Empty", Style::Struct, vec![skipped("a", int64_ty())]), variant("N", Style::Newtype, vec![skipped("0", int64_ty())])],
        tagging(Some("t"), None, false),
    );
    assert_eq!(ok(&c, &plain()), "type V =\n  | Empty\n  | N");
}

#[test]
fn plain_enumeration_has_no_helpers() {
    let c = union("E", vec![unit("A")], tagging(None, None, false));
    let opts = Options { enable_factory: true, enable_handler: true };
    assert_eq!(ok(&c, &opts), "type E =\n  | A = 0");
}

#[test]
fn large_ordinals_are_decimal() {
    let vs: Vec<Variant> = (0..12).map(|i| unit(&format!("V{}", i))).collect();
    let c = union("Big", vs, tagging(None, None, false));
    let out = ok(&c, &plain());
    assert!(out.ends_with("  | V10 = 10\n  | V11 = 11"));
}

#[test]
fn byte_string_escapes_each_byte() {
    assert_eq!(byte_string(&[5u8, 6, 7, 8, 9, 186, 233]), "\\x05\\x06\\x07\\x08\\x09\\xba\\xe9");
    assert_eq!(byte_string(&[]), "");
    assert_eq!(byte_string(&[0u8, 255]), "\\x00\\xff");
}
