use ast_adapt::ast::{
    Field,
    Container, Data, Directive, Member, OrigNode, ParsedAttrs, RawAttr, SerdeContainer, SerdeData,
    SerdeField, SerdeVariant, Style,
};
use ast_adapt::attr::{get_with_from_attrs, valid_target};
use ast_adapt::ctxt::{Ctxt, DiagKind, Diagnostic};
use ast_adapt::from_serde::{vec_from_serde, FromSerde};

fn plain_node(id: u64) -> OrigNode {
    OrigNode { id, attrs: vec![] }
}

fn node_with(id: u64, attrs: Vec<RawAttr>) -> OrigNode {
    OrigNode { id, attrs }
}

fn named_field<'a>(name: &str, ty: &str, original: &'a OrigNode) -> SerdeField<'a> {
    SerdeField {
        member: Member::Named(name.to_string()),
        attrs: ParsedAttrs { token: 0 },
        ty: ty.to_string(),
        original,
    }
}

fn positional_field<'a>(index: u32, ty: &str, original: &'a OrigNode) -> SerdeField<'a> {
    SerdeField {
        member: Member::Unnamed(index),
        attrs: ParsedAttrs { token: 0 },
        ty: ty.to_string(),
        original,
    }
}

fn struct_container<'a>(
    ident: &str,
    style: Style,
    fields: Vec<SerdeField<'a>>,
    original: &'a OrigNode,
) -> SerdeContainer<'a> {
    SerdeContainer {
        ident: ident.to_string(),
        attrs: ParsedAttrs { token: 0 },
        data: SerdeData::Struct(style, fields),
        generics: vec![],
        original,
    }
}

#[test]
fn struct_fields_preserved() {
    let node = plain_node(1);
    let input = struct_container(
        "Point",
        Style::Struct,
        vec![
            named_field("x", "u64", &node),
            named_field("y", "u64", &node),
            named_field("label", "String", &node),
        ],
        &node,
    );
    let mut errors = Ctxt::new();
    let out = Container::from_serde(&mut errors, input).expect("conversion must succeed");
    assert!(errors.is_empty());
    assert_eq!(out.ident, "Point".to_string());
    match &out.data {
        Data::Struct(style, fields) => {
            assert_eq!(*style, Style::Struct);
            assert_eq!(fields.len(), 3);
            assert_eq!(fields[0].member, Member::Named("x".to_string()));
            assert_eq!(fields[1].member, Member::Named("y".to_string()));
            assert_eq!(fields[2].member, Member::Named("label".to_string()));
            assert_eq!(fields[0].ty, "u64".to_string());
            assert_eq!(fields[2].ty, "String".to_string());
        }
        Data::Enum(_) => panic!("a struct declaration must stay a struct"),
    }
}

#[test]
fn tuple_layout_tag_preserved() {
    let node = plain_node(2);
    let input = struct_container(
        "Pair",
        Style::Tuple,
        vec![
            positional_field(0, "i32", &node),
            positional_field(1, "i32", &node),
        ],
        &node,
    );
    let mut errors = Ctxt::new();
    let out = Container::from_serde(&mut errors, input).expect("conversion must succeed");
    match &out.data {
        Data::Struct(style, fields) => {
            assert_eq!(*style, Style::Tuple);
            assert_eq!(fields.len(), 2);
            assert_eq!(fields[0].member, Member::Unnamed(0));
            assert_eq!(fields[1].member, Member::Unnamed(1));
        }
        Data::Enum(_) => panic!("a struct declaration must stay a struct"),
    }
}

#[test]
fn enum_variants_preserved() {
    let node = plain_node(3);
    let input = SerdeContainer {
        ident: "Choice".to_string(),
        attrs: ParsedAttrs { token: 9 },
        data: SerdeData::Enum(vec![
            SerdeVariant {
                ident: "First".to_string(),
                attrs: ParsedAttrs { token: 0 },
                style: Style::Unit,
                fields: vec![],
                original: &node,
            },
            SerdeVariant {
                ident: "Second".to_string(),
                attrs: ParsedAttrs { token: 0 },
                style: Style::Unit,
                fields: vec![],
                original: &node,
            },
        ]),
        generics: vec!["T".to_string()],
        original: &node,
    };
    let mut errors = Ctxt::new();
    let out = Container::from_serde(&mut errors, input).expect("conversion must succeed");
    assert!(errors.is_empty());
    assert_eq!(out.serde_attrs, ParsedAttrs { token: 9 });
    assert_eq!(out.generics, vec!["T".to_string()]);
    match &out.data {
        Data::Enum(variants) => {
            assert_eq!(variants.len(), 2);
            assert_eq!(variants[0].ident, "First".to_string());
            assert_eq!(variants[1].ident, "Second".to_string());
            assert_eq!(variants[0].style, Style::Unit);
        }
        Data::Struct(..) => panic!("an enum declaration must stay an enum"),
    }
}

#[test]
fn conversion_is_idempotent() {
    let node = node_with(4, vec![RawAttr::Override("custom::path".to_string())]);
    let plain = plain_node(5);
    let build = || {
        struct_container(
            "Record",
            Style::Struct,
            vec![named_field("key", "u32", &node), named_field("value", "String", &plain)],
            &plain,
        )
    };
    let mut errors1 = Ctxt::new();
    let mut errors2 = Ctxt::new();
    let out1 = Container::from_serde(&mut errors1, build()).expect("conversion must succeed");
    let out2 = Container::from_serde(&mut errors2, build()).expect("conversion must succeed");
    assert_eq!(out1, out2);
    assert_eq!(errors1.len(), 0);
    assert_eq!(errors2.len(), 0);
}

#[test]
fn override_absent_leaves_field_empty() {
    let node = node_with(6, vec![RawAttr::Other(11), RawAttr::Other(12)]);
    let input = struct_container("Plain", Style::Struct, vec![named_field("a", "u8", &node)], &node);
    let mut errors = Ctxt::new();
    let out = Container::from_serde(&mut errors, input).expect("conversion must succeed");
    match &out.data {
        Data::Struct(_, fields) => {
            assert_eq!(fields[0].with, None);
        }
        Data::Enum(_) => panic!("a struct declaration must stay a struct"),
    }
    assert!(errors.is_empty());
}

#[test]
fn override_target_taken_verbatim() {
    let node = node_with(
        7,
        vec![RawAttr::Other(1), RawAttr::Override("custom::encoder".to_string())],
    );
    let input = struct_container("Keyed", Style::Struct, vec![named_field("k", "u8", &node)], &node);
    let mut errors = Ctxt::new();
    let out = Container::from_serde(&mut errors, input).expect("conversion must succeed");
    match &out.data {
        Data::Struct(_, fields) => {
            assert_eq!(
                fields[0].with,
                Some(Directive { target: "custom::encoder".to_string() })
            );
        }
        Data::Enum(_) => panic!("a struct declaration must stay a struct"),
    }
    assert!(errors.is_empty());
}

#[test]
fn variant_override_resolved() {
    let vnode = node_with(8, vec![RawAttr::Override("alt::repr".to_string())]);
    let cnode = plain_node(9);
    let input = SerdeContainer {
        ident: "Wrapped".to_string(),
        attrs: ParsedAttrs { token: 0 },
        data: SerdeData::Enum(vec![SerdeVariant {
            ident: "Only".to_string(),
            attrs: ParsedAttrs { token: 0 },
            style: Style::Unit,
            fields: vec![],
            original: &vnode,
        }]),
        generics: vec![],
        original: &cnode,
    };
    let mut errors = Ctxt::new();
    let out = Container::from_serde(&mut errors, input).expect("conversion must succeed");
    match &out.data {
        Data::Enum(variants) => {
            assert_eq!(variants[0].with, Some(Directive { target: "alt::repr".to_string() }));
        }
        Data::Struct(..) => panic!("an enum declaration must stay an enum"),
    }
}

#[test]
fn malformed_override_records_one_diagnostic() {
    let bad = node_with(10, vec![RawAttr::Override("not a path!".to_string())]);
    let cnode = plain_node(11);
    let input =
        struct_container("Broken", Style::Struct, vec![named_field("f", "u8", &bad)], &cnode);
    let mut errors = Ctxt::new();
    let out = Container::from_serde(&mut errors, input);
    assert!(out.is_err());
    assert_eq!(errors.len(), 1);
    assert_eq!(errors.get(0), Diagnostic { node: 10, kind: DiagKind::MalformedOverride });
}

#[test]
fn conflicting_overrides_rejected() {
    let bad = node_with(
        12,
        vec![
            RawAttr::Override("first::path".to_string()),
            RawAttr::Override("second::path".to_string()),
        ],
    );
    let cnode = plain_node(13);
    let input =
        struct_container("Twice", Style::Struct, vec![named_field("f", "u8", &bad)], &cnode);
    let mut errors = Ctxt::new();
    let out = Container::from_serde(&mut errors, input);
    assert!(out.is_err());
    assert_eq!(errors.len(), 1);
    assert_eq!(errors.get(0), Diagnostic { node: 12, kind: DiagKind::ConflictingOverride });
}

#[test]
fn enum_declaration_adapts() {
    // enum E { A(i32), B { x: String } }, no custom attributes anywhere
    let node_a = plain_node(20);
    let node_b = plain_node(21);
    let node_e = plain_node(22);
    let input = SerdeContainer {
        ident: "E".to_string(),
        attrs: ParsedAttrs { token: 0 },
        data: SerdeData::Enum(vec![
            SerdeVariant {
                ident: "A".to_string(),
                attrs: ParsedAttrs { token: 0 },
                style: Style::Newtype,
                fields: vec![positional_field(0, "i32", &node_a)],
                original: &node_a,
            },
            SerdeVariant {
                ident: "B".to_string(),
                attrs: ParsedAttrs { token: 0 },
                style: Style::Struct,
                fields: vec![named_field("x", "String", &node_b)],
                original: &node_b,
            },
        ]),
        generics: vec![],
        original: &node_e,
    };
    let mut errors = Ctxt::new();
    let out = Container::from_serde(&mut errors, input).expect("conversion must succeed");
    assert!(errors.is_empty());
    match &out.data {
        Data::Enum(variants) => {
            assert_eq!(variants.len(), 2);
            assert_eq!(variants[0].ident, "A".to_string());
            assert_eq!(variants[0].style, Style::Newtype);
            assert_eq!(variants[0].fields.len(), 1);
            assert_eq!(variants[0].fields[0].ty, "i32".to_string());
            assert_eq!(variants[0].fields[0].with, None);
            assert_eq!(variants[0].with, None);
            assert_eq!(variants[1].ident, "B".to_string());
            assert_eq!(variants[1].style, Style::Struct);
            assert_eq!(variants[1].fields.len(), 1);
            assert_eq!(variants[1].fields[0].member, Member::Named("x".to_string()));
            assert_eq!(variants[1].fields[0].ty, "String".to_string());
            assert_eq!(variants[1].fields[0].with, None);
            assert_eq!(variants[1].with, None);
        }
        Data::Struct(..) => panic!("an enum declaration must stay an enum"),
    }
}

#[test]
fn earlier_diagnostics_retained() {
    // Two sibling declarations converted in one invocation share the context:
    // the second failure appends, it never erases the first.
    let bad1 = node_with(30, vec![RawAttr::Override("bad one".to_string())]);
    let bad2 = node_with(31, vec![RawAttr::Override("bad two".to_string())]);
    let cnode = plain_node(32);
    let mut errors = Ctxt::new();

    let first =
        struct_container("Alpha", Style::Struct, vec![named_field("a", "u8", &bad1)], &cnode);
    assert!(Container::from_serde(&mut errors, first).is_err());
    assert_eq!(errors.len(), 1);

    let second =
        struct_container("Beta", Style::Struct, vec![named_field("b", "u8", &bad2)], &cnode);
    assert!(Container::from_serde(&mut errors, second).is_err());

    assert_eq!(errors.len(), 2);
    assert_eq!(errors.get(0), Diagnostic { node: 30, kind: DiagKind::MalformedOverride });
    assert_eq!(errors.get(1), Diagnostic { node: 31, kind: DiagKind::MalformedOverride });
}

#[test]
fn sequence_stops_at_first_failure() {
    let good = plain_node(40);
    let bad1 = node_with(41, vec![RawAttr::Override("no good".to_string())]);
    let bad2 = node_with(42, vec![RawAttr::Override("also bad".to_string())]);
    let cnode = plain_node(43);
    let input = struct_container(
        "Stops",
        Style::Struct,
        vec![
            named_field("ok", "u8", &good),
            named_field("first_bad", "u8", &bad1),
            named_field("second_bad", "u8", &bad2),
        ],
        &cnode,
    );
    let mut errors = Ctxt::new();
    assert!(Container::from_serde(&mut errors, input).is_err());
    // only the first failing field left a diagnostic; the one after it was
    // never processed
    assert_eq!(errors.len(), 1);
    assert_eq!(errors.get(0).node, 41);
}

#[test]
fn empty_struct_adapts() {
    let node = plain_node(50);
    let input = struct_container("Empty", Style::Unit, vec![], &node);
    let mut errors = Ctxt::new();
    let out = Container::from_serde(&mut errors, input).expect("conversion must succeed");
    match &out.data {
        Data::Struct(style, fields) => {
            assert_eq!(*style, Style::Unit);
            assert_eq!(fields.len(), 0);
        }
        Data::Enum(_) => panic!("a struct declaration must stay a struct"),
    }
    assert!(errors.is_empty());
}

#[test]
fn field_sequence_converts_in_order() {
    let node = plain_node(60);
    let fields = vec![
        named_field("first", "u8", &node),
        named_field("second", "u16", &node),
        named_field("third", "u32", &node),
    ];
    let mut errors = Ctxt::new();
    let out = vec_from_serde::<Field>(&mut errors, fields).expect("conversion must succeed");
    assert_eq!(out.len(), 3);
    assert_eq!(out[0].member, Member::Named("first".to_string()));
    assert_eq!(out[1].member, Member::Named("second".to_string()));
    assert_eq!(out[2].member, Member::Named("third".to_string()));
    assert!(errors.is_empty());
}

#[test]
fn resolver_returns_none_without_directive() {
    let node = node_with(70, vec![RawAttr::Other(1), RawAttr::Other(2)]);
    let mut errors = Ctxt::new();
    let r = get_with_from_attrs(&node, &mut errors);
    assert_eq!(r, Ok(None));
    assert!(errors.is_empty());
}

#[test]
fn resolver_takes_single_directive() {
    let node = node_with(
        71,
        vec![RawAttr::Other(1), RawAttr::Override("a::B_9".to_string()), RawAttr::Other(2)],
    );
    let mut errors = Ctxt::new();
    let r = get_with_from_attrs(&node, &mut errors);
    assert_eq!(r, Ok(Some(Directive { target: "a::B_9".to_string() })));
    assert!(errors.is_empty());
}

#[test]
fn target_validation() {
    assert!(valid_target("x"));
    assert!(valid_target("a::B_9"));
    assert!(valid_target("UPPER_lower_0123456789"));
    assert!(!valid_target(""));
    assert!(!valid_target("a b"));
    assert!(!valid_target("hy-phen"));
    assert!(!valid_target("tab\tin"));
}
