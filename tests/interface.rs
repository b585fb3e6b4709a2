use juniper_codegen::defs::{
    AttrError, Diagnostic, ErrorKind, FieldAttrs, FieldDefinition, InterfaceDefinition, ItemKind,
    ScalarType, Severity, SourceField, SourceStruct, StructAttrs,
};
use juniper_codegen::derive::{expand, parse_scalar, resolve_context, synthesize_names};
use juniper_codegen::fields::{all_different, extract_fields, parse_field};
use juniper_codegen::model::{
    GenericParam, Generics, Ident, LitStr, MethodArgument, Span, TypeRef, TypeToken, Visibility,
};
use juniper_codegen::names::{has_reserved_prefix, unraw};
use juniper_codegen::rename::RenameRule;

fn span(n: u64) -> Span {
    Span { start: n, end: n + 1 }
}

fn ident(name: &str, at: u64) -> Ident {
    Ident { name: name.to_string(), span: span(at) }
}

fn named_type(name: &str) -> TypeRef {
    TypeRef { tokens: vec![TypeToken::Ident(name.to_string())] }
}

fn unit() -> TypeRef {
    TypeRef { tokens: vec![TypeToken::Punct('('), TypeToken::Punct(')')] }
}

fn field_attrs() -> FieldAttrs {
    FieldAttrs { name: None, description: None, deprecated: None, ignore: false }
}

fn struct_attrs() -> StructAttrs {
    StructAttrs {
        name: None,
        description: None,
        context: None,
        scalar: None,
        rename_fields: None,
        implemented_for: Vec::new(),
        enum_name: None,
        is_internal: false,
    }
}

fn field(name: &str, at: u64) -> SourceField {
    SourceField {
        ident: Some(ident(name, at)),
        span: span(at),
        ty: named_type("String"),
        attrs: Ok(field_attrs()),
    }
}

fn field_with(name: &str, at: u64, attrs: FieldAttrs) -> SourceField {
    SourceField { ident: Some(ident(name, at)), span: span(at), ty: named_type("String"), attrs: Ok(attrs) }
}

fn source(name: &str, fields: Vec<SourceField>, attrs: StructAttrs) -> SourceStruct {
    SourceStruct {
        kind: ItemKind::Struct,
        ident: ident(name, 1),
        span: span(0),
        vis: Visibility::Public,
        generics: Generics { params: Vec::new() },
        fields,
        attrs: Ok(attrs),
    }
}

fn ok(r: Result<InterfaceDefinition, Vec<Diagnostic>>) -> InterfaceDefinition {
    match r {
        Ok(d) => d,
        Err(e) => panic!("unexpected diagnostics: {:?}", e),
    }
}

fn errs(r: Result<InterfaceDefinition, Vec<Diagnostic>>) -> Vec<Diagnostic> {
    match r {
        Ok(d) => panic!("unexpected definition: {:?}", d),
        Err(e) => e,
    }
}

fn field_names(d: &InterfaceDefinition) -> Vec<String> {
    d.fields.iter().map(|f| f.name.clone()).collect()
}

fn kinds(e: &[Diagnostic]) -> Vec<ErrorKind> {
    e.iter().map(|d| d.kind).collect()
}

#[test]
fn character_interface_defaults() {
    let s = source("Character", vec![field("id", 10), field("name", 20)], struct_attrs());
    let d = ok(expand(&s));
    assert_eq!(d.name, "Character");
    assert_eq!(field_names(&d), vec!["id".to_string(), "name".to_string()]);
    assert_eq!(d.enum_ident, "CharacterValueEnum");
    assert_eq!(d.enum_alias_ident, "CharacterValue");
    assert_eq!(d.context.tokens.len(), 2);
    assert!(matches!(d.context.tokens[0], TypeToken::Punct('(')));
    assert!(matches!(d.context.tokens[1], TypeToken::Punct(')')));
    assert!(matches!(d.scalar, ScalarType::ImplicitGeneric));
    assert_eq!(d.fields[0].ident.name, "id");
    assert!(d.fields[0].arguments.is_none());
    assert!(!d.fields[0].has_receiver);
    assert!(!d.fields[0].is_async);
}

#[test]
fn field_renamed_by_option() {
    let mut a = field_attrs();
    a.name = Some(LitStr { value: "identifier".to_string(), span: span(11) });
    let s = source("Character", vec![field_with("id", 10, a), field("name", 20)], struct_attrs());
    let d = ok(expand(&s));
    assert_eq!(field_names(&d), vec!["identifier".to_string(), "name".to_string()]);
    assert_eq!(d.fields[0].ident.name, "id");
}

#[test]
fn explicit_enum_name() {
    let mut a = struct_attrs();
    a.enum_name = Some(ident("CharacterUnion", 5));
    let s = source("Character", vec![field("id", 10)], a);
    let d = ok(expand(&s));
    assert_eq!(d.enum_alias_ident, "CharacterUnion");
    assert_eq!(d.enum_ident, "CharacterUnionEnum");
}

#[test]
fn reserved_field_dropped_others_processed() {
    let s = source("Character", vec![field("__internal", 10), field("name", 20)], struct_attrs());
    let mut diags = Vec::new();
    let kept = extract_fields(&s.fields, RenameRule::CamelCase, &mut diags);
    assert_eq!(kept.len(), 1);
    assert_eq!(kept[0].name, "name");
    assert_eq!(diags.len(), 1);
    assert_eq!(diags[0].kind, ErrorKind::Naming);
    assert_eq!(diags[0].span, span(10));

    let e = errs(expand(&s));
    assert_eq!(kinds(&e), vec![ErrorKind::Naming]);
    assert_eq!(e[0].severity, Severity::Recoverable);
    assert_eq!(e[0].span, span(10));
}

#[test]
fn only_reserved_field_also_empty() {
    let s = source("Character", vec![field("__internal", 10)], struct_attrs());
    let e = errs(expand(&s));
    assert_eq!(kinds(&e), vec![ErrorKind::Naming, ErrorKind::EmptyInterface]);
    assert_eq!(e[1].span, span(0));
    assert_eq!(e[1].message, "must have at least one field");
}

#[test]
fn no_fields_is_empty_interface() {
    let s = source("Character", Vec::new(), struct_attrs());
    let e = errs(expand(&s));
    assert_eq!(kinds(&e), vec![ErrorKind::EmptyInterface]);
    assert_eq!(e[0].severity, Severity::Fatal);
    assert_eq!(e[0].span, span(0));
}

#[test]
fn ignored_fields_only_is_empty_interface_even_with_bad_name() {
    let mut ig = field_attrs();
    ig.ignore = true;
    let mut a = struct_attrs();
    a.name = Some(LitStr { value: "__Bad".to_string(), span: span(3) });
    let s = source("Character", vec![field_with("id", 10, ig)], a);
    let e = errs(expand(&s));
    assert_eq!(kinds(&e), vec![ErrorKind::Naming, ErrorKind::EmptyInterface]);
    assert_eq!(e[0].span, span(3));
}

#[test]
fn duplicate_names_anchored_at_struct() {
    let mut a = field_attrs();
    a.name = Some(LitStr { value: "firstName".to_string(), span: span(21) });
    let s = source("Person", vec![field("first_name", 10), field_with("other", 20, a)], struct_attrs());
    let e = errs(expand(&s));
    assert_eq!(kinds(&e), vec![ErrorKind::Naming]);
    assert_eq!(e[0].span, span(0));
    assert_eq!(e[0].severity, Severity::Fatal);
    assert_eq!(e[0].message, "must have a different name for each field");
}

#[test]
fn duplicate_names_not_adjacent() {
    let s = source("Person", vec![field("a", 10), field("b", 20), field("a", 30)], struct_attrs());
    let e = errs(expand(&s));
    assert_eq!(kinds(&e), vec![ErrorKind::Naming]);
    assert_eq!(e[0].span, span(0));
}

#[test]
fn reserved_field_in_internal_interface() {
    let mut a = struct_attrs();
    a.is_internal = true;
    let s = source("__Schema", vec![field("__internal", 10), field("name", 20)], a);
    let e = errs(expand(&s));
    assert_eq!(kinds(&e), vec![ErrorKind::Naming]);
    assert_eq!(e[0].span, span(10));
}

#[test]
fn reserved_struct_name_not_internal() {
    let s = source("__Type", vec![field("name", 20)], struct_attrs());
    let e = errs(expand(&s));
    assert_eq!(kinds(&e), vec![ErrorKind::Naming]);
    assert_eq!(e[0].span, span(1));
}

#[test]
fn reserved_struct_name_internal() {
    let mut a = struct_attrs();
    a.is_internal = true;
    let s = source("__Type", vec![field("name", 20)], a);
    let d = ok(expand(&s));
    assert_eq!(d.name, "__Type");
    assert_eq!(d.enum_ident, "__TypeValueEnum");
}

#[test]
fn derivation_is_repeatable() {
    let mut a = struct_attrs();
    a.description = Some("A character".to_string());
    let s = source("Character", vec![field("id", 10), field("home_planet", 20)], a);
    let first = format!("{:?}", expand(&s));
    let second = format!("{:?}", expand(&s));
    assert_eq!(first, second);
    let bad = source("Character", Vec::new(), struct_attrs());
    assert_eq!(format!("{:?}", expand(&bad)), format!("{:?}", expand(&bad)));
}

#[test]
fn not_a_struct() {
    let mut s = source("Character", vec![field("id", 10)], struct_attrs());
    s.kind = ItemKind::Enum;
    let e = errs(expand(&s));
    assert_eq!(kinds(&e), vec![ErrorKind::Structure]);
    assert_eq!(e[0].message, "can only be derived on structs");
    assert_eq!(e[0].span, span(0));
}

#[test]
fn struct_options_do_not_parse() {
    let mut s = source("Character", vec![field("id", 10)], struct_attrs());
    s.attrs = Err(AttrError { message: "unknown option `foo`".to_string(), span: span(4) });
    let e = errs(expand(&s));
    assert_eq!(kinds(&e), vec![ErrorKind::Option]);
    assert_eq!(e[0].severity, Severity::Fatal);
    assert_eq!(e[0].message, "unknown option `foo`");
    assert_eq!(e[0].span, span(4));
}

#[test]
fn field_options_do_not_parse() {
    let mut bad = field("id", 10);
    bad.attrs = Err(AttrError { message: "unknown option `bar`".to_string(), span: span(12) });
    let mut diags = Vec::new();
    let kept = extract_fields(&vec![bad, field("__x", 20), field("name", 30)], RenameRule::CamelCase, &mut diags);
    assert_eq!(kept.len(), 1);
    assert_eq!(kinds(&diags), vec![ErrorKind::Option, ErrorKind::Naming]);
    assert_eq!(diags[0].severity, Severity::Recoverable);
    assert_eq!(diags[0].span, span(12));
}

#[test]
fn unnamed_field() {
    let f = SourceField { ident: None, span: span(7), ty: named_type("i32"), attrs: Ok(field_attrs()) };
    let mut diags = Vec::new();
    assert!(parse_field(&f, RenameRule::CamelCase, &mut diags).is_none());
    assert_eq!(kinds(&diags), vec![ErrorKind::Structure]);
    assert_eq!(diags[0].message, "expected named struct field");
    assert_eq!(diags[0].span, span(7));
}

#[test]
fn ignored_field_silent() {
    let mut a = field_attrs();
    a.ignore = true;
    let mut diags = Vec::new();
    assert!(parse_field(&field_with("__hidden", 10, a), RenameRule::CamelCase, &mut diags).is_none());
    assert!(diags.is_empty());
}

#[test]
fn field_copies_strings_and_anonymizes_lifetimes() {
    let mut a = field_attrs();
    a.description = Some("the name".to_string());
    a.deprecated = Some("use title".to_string());
    let f = SourceField {
        ident: Some(ident("r#type", 10)),
        span: span(10),
        ty: TypeRef {
            tokens: vec![
                TypeToken::Punct('&'),
                TypeToken::Lifetime("a".to_string()),
                TypeToken::Ident("str".to_string()),
            ],
        },
        attrs: Ok(a),
    };
    let mut diags = Vec::new();
    let d: FieldDefinition = parse_field(&f, RenameRule::CamelCase, &mut diags).unwrap();
    assert!(diags.is_empty());
    assert_eq!(d.name, "type");
    assert_eq!(d.ident.name, "r#type");
    assert_eq!(d.description.as_deref(), Some("the name"));
    assert_eq!(d.deprecated.as_deref(), Some("use title"));
    assert!(matches!(&d.ty.tokens[1], TypeToken::Lifetime(l) if l == "_"));
    assert!(matches!(&d.ty.tokens[2], TypeToken::Ident(i) if i == "str"));
}

#[test]
fn camel_case_rule() {
    let c = RenameRule::CamelCase;
    assert_eq!(c.apply("first_name"), "firstName");
    assert_eq!(c.apply("_unused"), "unused");
    assert_eq!(c.apply("a__b"), "aB");
    assert_eq!(c.apply("x_y_z"), "xYZ");
    assert_eq!(c.apply("trailing_"), "trailing");
    assert_eq!(c.apply("__typename"), "__typename");
    assert_eq!(c.apply("__type_name"), "__typeName");
    assert_eq!(c.apply("über_straße"), "überStraße");
    assert_eq!(c.apply("a_ß"), "aSS");
    assert_eq!(c.apply(""), "");
}

#[test]
fn identity_rule() {
    let s = source("Person", vec![field("first_name", 10)], {
        let mut a = struct_attrs();
        a.rename_fields = Some(RenameRule::Identity);
        a
    });
    let d = ok(expand(&s));
    assert_eq!(field_names(&d), vec!["first_name".to_string()]);
    assert_eq!(RenameRule::Identity.apply("a_b"), "a_b");
}

#[test]
fn name_helpers() {
    assert_eq!(unraw("r#match"), "match");
    assert_eq!(unraw("plain"), "plain");
    assert_eq!(unraw("r"), "r");
    assert!(has_reserved_prefix("__x"));
    assert!(has_reserved_prefix("__"));
    assert!(!has_reserved_prefix("_x"));
    assert!(!has_reserved_prefix(""));
}

#[test]
fn explicit_context_wins() {
    let mut a = struct_attrs();
    a.context = Some(named_type("Database"));
    let s = source("Character", vec![field("id", 10)], a);
    let d = ok(expand(&s));
    assert!(matches!(&d.context.tokens[..], [TypeToken::Ident(c)] if c == "Database"));
}

#[test]
fn context_from_field_arguments() {
    let with_args = |args: Vec<MethodArgument>| FieldDefinition {
        name: "f".to_string(),
        ident: ident("f", 1),
        ty: named_type("i32"),
        description: None,
        deprecated: None,
        arguments: Some(args),
        has_receiver: true,
        is_async: false,
    };
    let fields = vec![
        with_args(vec![MethodArgument::Executor]),
        with_args(vec![
            MethodArgument::Regular(ident("x", 2), named_type("i32")),
            MethodArgument::Context(named_type("Ctx")),
        ]),
        with_args(vec![MethodArgument::Context(named_type("Other"))]),
    ];
    let c = resolve_context(&None, &fields);
    assert!(matches!(&c.tokens[..], [TypeToken::Ident(n)] if n == "Ctx"));
    let c = resolve_context(&Some(named_type("Db")), &fields);
    assert!(matches!(&c.tokens[..], [TypeToken::Ident(n)] if n == "Db"));
    let c = resolve_context(&None, &fields[..1].to_vec());
    assert_eq!(c.tokens.len(), 2);
    assert!(matches!(c.tokens[0], TypeToken::Punct('(')));
}

#[test]
fn scalar_resolution() {
    let g = Generics { params: vec![GenericParam::Lifetime("a".to_string()), GenericParam::Type("S".to_string())] };
    assert!(matches!(parse_scalar(&None, &g), ScalarType::ImplicitGeneric));
    assert!(matches!(parse_scalar(&Some(named_type("S")), &g), ScalarType::ExplicitGeneric(s) if s == "S"));
    assert!(matches!(parse_scalar(&Some(named_type("MyScalar")), &g), ScalarType::Concrete(t) if t.tokens.len() == 1));
    assert!(matches!(parse_scalar(&Some(named_type("a")), &g), ScalarType::Concrete(_)));
}

#[test]
fn names_synthesized() {
    let (e, a) = synthesize_names(&ident("Hero", 1), &None);
    assert_eq!((e.as_str(), a.as_str()), ("HeroValueEnum", "HeroValue"));
    let (e, a) = synthesize_names(&ident("Hero", 1), &Some(ident("HeroKind", 2)));
    assert_eq!((e.as_str(), a.as_str()), ("HeroKindEnum", "HeroKind"));
}

#[test]
fn distinct_names_check() {
    let mut diags = Vec::new();
    let fs = extract_fields(&vec![field("a", 1), field("b", 2), field("c", 3)], RenameRule::CamelCase, &mut diags);
    assert!(all_different(&fs));
    let fs = extract_fields(&vec![field("a", 1), field("b", 2), field("a", 3)], RenameRule::CamelCase, &mut diags);
    assert!(!all_different(&fs));
    assert!(all_different(&Vec::new()));
}

#[test]
fn definition_carries_options() {
    let mut a = struct_attrs();
    a.name = Some(LitStr { value: "Hero".to_string(), span: span(2) });
    a.description = Some("A hero".to_string());
    a.implemented_for = vec![named_type("Human"), named_type("Droid")];
    let mut s = source("r#Character", vec![field("id", 10)], a);
    s.vis = Visibility::Crate;
    s.generics = Generics { params: vec![GenericParam::Type("S".to_string())] };
    let d = ok(expand(&s));
    assert_eq!(d.name, "Hero");
    assert_eq!(d.description.as_deref(), Some("A hero"));
    assert_eq!(d.implemented_for.len(), 2);
    assert!(matches!(&d.implemented_for[1].tokens[..], [TypeToken::Ident(n)] if n == "Droid"));
    assert!(matches!(d.vis, Visibility::Crate));
    assert_eq!(d.generics.params.len(), 1);
    assert_eq!(d.enum_ident, "r#CharacterValueEnum");
}

#[test]
fn default_name_strips_raw_escape() {
    let s = source("r#Character", vec![field("id", 10)], struct_attrs());
    let d = ok(expand(&s));
    assert_eq!(d.name, "Character");
}
