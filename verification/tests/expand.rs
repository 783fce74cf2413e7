use derive_ex::attrs::{
    Args, ArgsForCompareOp, ArgsForDebug, ArgsForDefault, AttrArgs, Attribute, DeriveItem,
    DeriveItemArgs, ExprShape, Flag, Meta,
};
use derive_ex::bound::Bound;
use derive_ex::generics::{GenericParam, GenericParamKind, Generics, TypeExpr};
use derive_ex::item::{Field, FieldsKind, ItemEnum, ItemStruct, Variant};
use derive_ex::text::{Fragment, Token};
use proc_macro2::{Delimiter, Spacing, TokenStream, TokenTree};

#[allow(dead_code)]
fn flatten(ts: TokenStream, out: &mut Vec<Token>) {
    for tt in ts {
        match tt {
            TokenTree::Group(g) => {
                let (open, close) = match g.delimiter() {
                    Delimiter::Parenthesis => ("(", ")"),
                    Delimiter::Brace => ("{", "}"),
                    Delimiter::Bracket => ("[", "]"),
                    Delimiter::None => ("", ""),
                };
                if !open.is_empty() {
                    out.push(Token { text: open.to_string(), glued: false });
                }
                flatten(g.stream(), out);
                if !close.is_empty() {
                    out.push(Token { text: close.to_string(), glued: false });
                }
            }
            TokenTree::Punct(p) => out.push(Token {
                text: p.as_char().to_string(),
                glued: p.spacing() == Spacing::Joint,
            }),
            TokenTree::Ident(i) => out.push(Token { text: i.to_string(), glued: false }),
            TokenTree::Literal(l) => out.push(Token { text: l.to_string(), glued: false }),
        }
    }
}

#[allow(dead_code)]
fn frag_at(src: &str, span: usize) -> Fragment {
    let mut tokens = Vec::new();
    flatten(src.parse::<TokenStream>().unwrap(), &mut tokens);
    Fragment { tokens, span }
}

#[allow(dead_code)]
fn frag(src: &str) -> Fragment {
    frag_at(src, 0)
}

#[allow(dead_code)]
fn ty(src: &str, heads: &[&str]) -> TypeExpr {
    TypeExpr { tokens: frag(src), path_heads: heads.iter().map(|s| s.to_string()).collect() }
}

#[allow(dead_code)]
fn no_generics() -> Generics {
    Generics {
        params: vec![],
        impl_generics: frag(""),
        type_generics: frag(""),
        where_predicates: vec![],
    }
}

#[allow(dead_code)]
fn generics(params: &[&str]) -> Generics {
    let list = params.join(", ");
    Generics {
        params: params
            .iter()
            .map(|p| GenericParam { kind: GenericParamKind::Type, ident: p.to_string() })
            .collect(),
        impl_generics: frag(&format!("<{list}>")),
        type_generics: frag(&format!("<{list}>")),
        where_predicates: vec![],
    }
}

#[allow(dead_code)]
fn field(name: Option<&str>, t: TypeExpr, attrs: Vec<Attribute>) -> Field {
    Field { ident: name.map(|s| s.to_string()), ty: t, attrs }
}

#[allow(dead_code)]
fn plain(src: &str) -> Field {
    field(None, ty(src, &[]), vec![])
}

#[allow(dead_code)]
fn tuple_struct(name: &str, g: Generics, fields: Vec<Field>, attrs: Vec<Attribute>) -> ItemStruct {
    ItemStruct { ident: name.to_string(), generics: g, kind: FieldsKind::Unnamed, fields, attrs }
}

#[allow(dead_code)]
fn named_struct(name: &str, g: Generics, fields: Vec<Field>, attrs: Vec<Attribute>) -> ItemStruct {
    ItemStruct { ident: name.to_string(), generics: g, kind: FieldsKind::Named, fields, attrs }
}

#[allow(dead_code)]
fn variant(name: &str, kind: FieldsKind, fields: Vec<Field>, attrs: Vec<Attribute>) -> Variant {
    Variant { ident: name.to_string(), kind, fields, attrs, span: 0 }
}

#[allow(dead_code)]
fn item_enum(name: &str, g: Generics, variants: Vec<Variant>, attrs: Vec<Attribute>) -> ItemEnum {
    ItemEnum { ident: name.to_string(), generics: g, variants, attrs }
}

#[allow(dead_code)]
fn request(names: &[&str]) -> AttrArgs {
    AttrArgs::Derive(Args {
        items: names
            .iter()
            .map(|n| DeriveItem { trait_ident: n.to_string(), span: 0, args: None })
            .collect(),
        bound: None,
        dump: false,
    })
}

#[allow(dead_code)]
fn request_with(names: &[&str], bound: Option<Vec<Bound>>, dump: bool) -> AttrArgs {
    AttrArgs::Derive(Args {
        items: names
            .iter()
            .map(|n| DeriveItem { trait_ident: n.to_string(), span: 0, args: None })
            .collect(),
        bound,
        dump,
    })
}

#[allow(dead_code)]
fn request_item(name: &str, span: usize, bound: Option<Vec<Bound>>, dump: bool) -> DeriveItem {
    DeriveItem {
        trait_ident: name.to_string(),
        span,
        args: Some(DeriveItemArgs { bound, dump }),
    }
}

#[allow(dead_code)]
fn attr(name: &str, meta: Meta) -> Attribute {
    Attribute { ident: Some(name.to_string()), span: 0, meta }
}

#[allow(dead_code)]
fn attr_at(name: &str, span: usize, meta: Meta) -> Attribute {
    Attribute { ident: Some(name.to_string()), span, meta }
}

#[allow(dead_code)]
fn no_flag() -> Flag {
    Flag { span: None }
}

#[allow(dead_code)]
fn flag(span: usize) -> Flag {
    Flag { span: Some(span) }
}

#[allow(dead_code)]
fn compare_args() -> ArgsForCompareOp {
    ArgsForCompareOp { ignore: no_flag(), reverse: no_flag(), by: None, key: None, bound: None }
}

#[allow(dead_code)]
fn compare_attr(name: &str, args: ArgsForCompareOp) -> Attribute {
    attr(name, Meta::List(AttrArgs::Compare(args)))
}

#[allow(dead_code)]
fn key(src: &str) -> Option<Fragment> {
    let mut tokens = Vec::new();
    flatten(src.parse::<TokenStream>().unwrap(), &mut tokens);
    let tokens = derive_ex::compare_expr::dollar_token_to_placeholder(&tokens);
    Some(Fragment { tokens, span: 0 })
}

#[allow(dead_code)]
fn debug_attr(transparent: bool, ignore: bool, bound: Option<Vec<Bound>>) -> Attribute {
    attr(
        "debug",
        Meta::List(AttrArgs::Debug(ArgsForDebug {
            transparent: if transparent { flag(0) } else { no_flag() },
            ignore: if ignore { flag(0) } else { no_flag() },
            bound,
        })),
    )
}

#[allow(dead_code)]
fn default_attr(value: &str, shape: ExprShape, bound: Option<Vec<Bound>>) -> Attribute {
    attr("default", Meta::List(AttrArgs::Default(ArgsForDefault { value: frag(value), shape, bound })))
}

#[allow(dead_code)]
fn norm(code: &str) -> String {
    code.parse::<TokenStream>().unwrap().to_string()
}

#[allow(dead_code)]
fn derive(names: &[&str]) -> Attribute {
    attr("derive_ex", Meta::List(request(names)))
}

#[allow(dead_code)]
fn codes(item: &derive_ex::expand::Item) -> Vec<String> {
    derive_ex::expand::derive_ex_derive(item)
        .into_iter()
        .map(|g| match g {
            derive_ex::driver::Generated::Code(c) => c,
            derive_ex::driver::Generated::Error(d) => panic!("{}", d.message),
        })
        .collect()
}

#[allow(dead_code)]
fn words(code: &str) -> Vec<String> {
    let mut tokens = Vec::new();
    flatten(code.parse::<TokenStream>().unwrap(), &mut tokens);
    tokens.into_iter().map(|t| t.text).collect()
}

#[allow(dead_code)]
fn assert_same_code(actual: &str, expected: &str) {
    let a: syn::File = syn::parse_str(actual).unwrap_or_else(|e| panic!("not Rust: {e}"));
    let e: syn::File = syn::parse_str(expected).unwrap();
    if a != e {
        let a = words(actual);
        let e = words(expected);
        let at = a.iter().zip(e.iter()).position(|(x, y)| x != y).unwrap_or(a.len().min(e.len()));
        let from = at.saturating_sub(8);
        panic!(
            "code differs at token {at}:\n  actual: {}\nexpected: {}",
            a[from..(at + 12).min(a.len())].join(" "),
            e[from..(at + 12).min(e.len())].join(" ")
        );
    }
}

use derive_ex::driver::Generated;
use derive_ex::expand::{
    build, build_by_item_enum, build_by_item_struct, derive_ex, derive_ex_derive, remove_attrs, Item,
};
use derive_ex::hattrs::HelperAttributeKinds;
use derive_ex::item_impl::ItemImpl;

fn names(attrs: &[Attribute]) -> Vec<String> {
    attrs.iter().map(|a| a.ident.clone().unwrap_or_default()).collect()
}

fn view(generated: &[Generated]) -> Vec<(bool, usize, String)> {
    generated
        .iter()
        .map(|g| match g {
            Generated::Code(c) => (true, 0, c.clone()),
            Generated::Error(d) => (false, d.span, d.message.clone()),
        })
        .collect()
}

fn sample() -> ItemStruct {
    named_struct(
        "X",
        generics(&["T"]),
        vec![
            field(
                Some("a"),
                ty("T", &["T"]),
                vec![
                    attr("doc", Meta::NameValue),
                    compare_attr("ord", compare_args()),
                    attr("serde", Meta::Path),
                    debug_attr(false, true, None),
                ],
            ),
            field(Some("b"), ty("u8", &[]), vec![attr("default", Meta::Path), attr("hash", Meta::Path)]),
        ],
        vec![attr("derive", Meta::Path), attr("debug", Meta::Path), attr("repr", Meta::Path)],
    )
}

#[test]
fn annotations_that_were_read_are_taken_off_the_struct() {
    let mut item = sample();
    let generated = build_by_item_struct(&request(&["Debug", "PartialEq"]), &mut item)
        .unwrap_or_else(|ds| panic!("{}", ds[0].message));
    assert_eq!(generated.len(), 2);
    assert_eq!(names(&item.attrs), vec!["derive", "repr"]);
    assert_eq!(names(&item.fields[0].attrs), vec!["doc", "serde"]);
    // `#[default]` and `#[hash]` belong to traits that were not requested
    assert_eq!(names(&item.fields[1].attrs), vec!["default", "hash"]);
    assert_eq!(item.ident, "X");
    assert_eq!(item.fields.len(), 2);
    assert_eq!(item.fields[0].ident.as_deref(), Some("a"));
}

#[test]
fn an_annotation_is_taken_off_where_a_requested_trait_consults_it() {
    let marked = || {
        tuple_struct(
            "X",
            no_generics(),
            vec![field(
                None,
                ty("u8", &[]),
                vec![
                    compare_attr("ord", compare_args()),
                    compare_attr("partial_ord", compare_args()),
                    attr("doc", Meta::NameValue),
                    compare_attr("eq", compare_args()),
                    compare_attr("partial_eq", compare_args()),
                    compare_attr("hash", compare_args()),
                ],
            )],
            vec![],
        )
    };
    let left = |name: &str| {
        let mut item = marked();
        build_by_item_struct(&request(&[name]), &mut item).unwrap_or_else(|ds| panic!("{}", ds[0].message));
        names(&item.fields[0].attrs)
    };
    assert_eq!(left("Ord"), vec!["partial_ord", "doc", "eq", "partial_eq", "hash"]);
    assert_eq!(left("PartialOrd"), vec!["doc", "eq", "partial_eq", "hash"]);
    assert_eq!(left("Eq"), vec!["partial_ord", "doc", "partial_eq", "hash"]);
    assert_eq!(left("PartialEq"), vec!["doc", "hash"]);
    assert_eq!(left("Hash"), vec!["partial_ord", "doc", "partial_eq"]);
    assert_eq!(left("Clone"), vec!["ord", "partial_ord", "doc", "eq", "partial_eq", "hash"]);
}

#[test]
fn annotations_are_taken_off_even_when_the_expansion_fails() {
    let mut item = sample();
    item.fields[0].attrs.push(attr_at("debug", 12, Meta::Path));
    let r = build_by_item_struct(&request(&["Debug"]), &mut item);
    assert!(matches!(r, Err(ds) if ds.len() == 1 && ds[0].span == 12
        && ds[0].message == "#[debug] was specified twice"));
    assert_eq!(names(&item.attrs), vec!["derive", "repr"]);
    assert_eq!(names(&item.fields[0].attrs), vec!["doc", "ord", "serde"]);
}

#[test]
fn annotations_are_taken_off_variants_and_their_fields() {
    let mut item = item_enum(
        "E",
        no_generics(),
        vec![
            variant(
                "A",
                FieldsKind::Unnamed,
                vec![field(None, ty("u8", &[]), vec![compare_attr("eq", compare_args()), attr("doc", Meta::NameValue)])],
                vec![attr("default", Meta::Path), attr("derive_ex", Meta::List(request(&["Clone"])))],
            ),
            variant("B", FieldsKind::Unit, vec![], vec![attr("cfg", Meta::Path)]),
        ],
        vec![attr("derive_ex", Meta::List(request(&["Default"])))],
    );
    let generated =
        build_by_item_enum(&request(&["Eq"]), &mut item).unwrap_or_else(|ds| panic!("{}", ds[0].message));
    assert_eq!(generated.len(), 2);
    assert!(names(&item.attrs).is_empty());
    assert!(names(&item.variants[0].attrs).is_empty());
    assert_eq!(names(&item.variants[0].fields[0].attrs), vec!["doc"]);
    assert_eq!(names(&item.variants[1].attrs), vec!["cfg"]);
    assert_eq!(item.variants[0].ident, "A");
}

#[test]
fn remove_attrs_keeps_the_order_of_what_stays() {
    let mut attrs = vec![
        attr("a", Meta::Path),
        attr("debug", Meta::Path),
        attr("debug", Meta::Path),
        attr("b", Meta::Path),
        attr("derive_ex", Meta::Path),
        attr("c", Meta::Path),
    ];
    let mut kinds = HelperAttributeKinds::new(true);
    kinds.debug = true;
    remove_attrs(&mut attrs, &kinds);
    assert_eq!(names(&attrs), vec!["a", "b", "c"]);
    remove_attrs(&mut attrs, &kinds);
    assert_eq!(names(&attrs), vec!["a", "b", "c"]);
    let mut all = vec![attr("debug", Meta::Path)];
    remove_attrs(&mut all, &kinds);
    assert!(all.is_empty());
}

#[test]
fn every_site_with_a_fault_is_reported() {
    let item = Item::Enum(item_enum(
        "E",
        no_generics(),
        vec![
            variant(
                "A",
                FieldsKind::Unnamed,
                vec![
                    field(None, ty("u8", &[]), vec![attr("ord", Meta::Path), attr_at("ord", 3, Meta::Path)]),
                    plain("u8"),
                    field(None, ty("u8", &[]), vec![attr_at("eq", 4, Meta::NameValue)]),
                ],
                vec![compare_attr("ord", ArgsForCompareOp { ignore: flag(2), ..compare_args() })],
            ),
            variant("B", FieldsKind::Unit, vec![], vec![]),
        ],
        vec![
            derive(&["Ord", "Eq", "Clone"]),
            compare_attr("eq", ArgsForCompareOp { reverse: flag(1), ..compare_args() }),
        ],
    ));
    assert_eq!(
        view(&derive_ex_derive(&item)),
        vec![
            (false, 1, "cannot specify `reverse` for type".to_string()),
            (false, 2, "cannot specify `ignore` for enum variants".to_string()),
            (false, 3, "#[ord] was specified twice".to_string()),
            (false, 4, "`name = value` style attribute is not supported for `#[eq]".to_string()),
        ]
    );
    // a fault in the requests themselves is the only one reported
    let item = Item::Struct(tuple_struct(
        "X",
        no_generics(),
        vec![field(None, ty("u8", &[]), vec![attr("debug", Meta::Path), attr("debug", Meta::Path)])],
        vec![derive(&["Debug", "Display"])],
    ));
    assert_eq!(view(&derive_ex_derive(&item)), vec![(false, 0, "unsupported trait".to_string())]);
}

#[test]
fn dump_reports_the_code_in_place_of_using_it() {
    let plain_item = Item::Struct(tuple_struct("X", no_generics(), vec![plain("u8")], vec![derive(&["Copy"])]));
    let code = codes(&plain_item).remove(0);
    let mut args = request_with(&["Copy", "Clone"], None, false);
    if let AttrArgs::Derive(a) = &mut args {
        a.items[0] = request_item("Copy", 77, None, true);
    }
    let dumped = Item::Struct(tuple_struct(
        "X",
        no_generics(),
        vec![plain("u8")],
        vec![attr("derive_ex", Meta::List(args))],
    ));
    let generated = derive_ex_derive(&dumped);
    assert_eq!(view(&generated)[0], (false, 77, format!("dump:\n{code}")));
    assert!(view(&generated)[1].0);
    // `dump` beside the traits holds for all of them
    let all = Item::Struct(tuple_struct(
        "X",
        no_generics(),
        vec![plain("u8")],
        vec![attr("derive_ex", Meta::List(request_with(&["Copy", "Clone"], None, true)))],
    ));
    let generated = derive_ex_derive(&all);
    assert!(view(&generated).iter().all(|(ok, _, m)| !ok && m.starts_with("dump:\n")));
}

#[test]
fn same_item_gives_the_same_code() {
    let make = || {
        Item::Enum(item_enum(
            "E",
            generics(&["T"]),
            vec![
                variant("A", FieldsKind::Unnamed, vec![field(None, ty("T", &["T"]), vec![])], vec![attr("default", Meta::Path)]),
                variant("B", FieldsKind::Named, vec![field(Some("x"), ty("u8", &[]), vec![])], vec![]),
            ],
            vec![derive(&["Ord", "PartialOrd", "Eq", "PartialEq", "Hash", "Clone", "Copy", "Debug", "Default", "Add"])],
        ))
    };
    let first = view(&derive_ex_derive(&make()));
    let second = view(&derive_ex_derive(&make()));
    assert_eq!(first.len(), 10);
    assert_eq!(first, second);
    let mut a = make();
    let mut b = make();
    assert_eq!(view(&derive_ex(&request(&["Clone"]), &mut a)), view(&derive_ex(&request(&["Clone"]), &mut b)));
}

#[test]
fn each_request_is_answered_in_its_place() {
    let item = Item::Struct(tuple_struct(
        "X",
        no_generics(),
        vec![plain("u8"), plain("u8")],
        vec![derive(&["Clone", "Deref", "Copy"])],
    ));
    let generated = view(&derive_ex_derive(&item));
    assert_eq!(generated.len(), 3);
    assert!(generated[0].0 && generated[0].2.contains("::core::clone::Clone for X"));
    assert_eq!(generated[1], (false, 0, "`#[derive_ex(Deref)]` supports only single field struct.".to_string()));
    assert!(generated[2].0 && generated[2].2.contains("::core::marker::Copy for X"));
}

#[test]
fn attribute_form_takes_structs_enums_and_implementations() {
    let mut other = Item::Other;
    assert!(matches!(build(&request(&["Clone"]), &mut other), Err(ds) if ds.len() == 1
        && ds[0].message == "`#[derive_ex]` can be specified only for `struct`, `enum`, or `impl`."));
    assert_eq!(
        view(&derive_ex(&request(&["Clone"]), &mut Item::Union)),
        vec![(false, 0, "`#[derive_ex]` can be specified only for `struct`, `enum`, or `impl`.".to_string())]
    );
    let mut s = Item::Struct(sample());
    let generated = derive_ex(&request(&["Clone"]), &mut s);
    assert_eq!(generated.len(), 1);
    assert!(matches!(&generated[0], Generated::Code(c) if c.contains("where T : ::core::clone::Clone, {")));
    let mut failing = Item::Struct(tuple_struct("X", no_generics(), vec![], vec![]));
    assert_eq!(
        view(&derive_ex(&request(&["Display"]), &mut failing)),
        vec![(false, 0, "unsupported trait".to_string())]
    );
    let mut imp = Item::Impl(ItemImpl { generics: no_generics(), trait_: None, self_ty: frag("X"), types: vec![] });
    assert_eq!(
        view(&derive_ex(&request(&["Add"]), &mut imp)),
        vec![(false, 0, "must be used with `impl {Trait} for {Type}`".to_string())]
    );
}

#[test]
fn derive_form_takes_structs_and_enums() {
    assert_eq!(view(&derive_ex_derive(&Item::Union)), vec![(false, 0, "does not support union types".to_string())]);
    assert_eq!(
        view(&derive_ex_derive(&Item::Other)),
        vec![(false, 0, "expected one of: `struct`, `enum`, `union`".to_string())]
    );
    let nothing = Item::Struct(tuple_struct("X", no_generics(), vec![], vec![]));
    assert!(derive_ex_derive(&nothing).is_empty());
}

#[test]
fn unit_struct_has_nothing_after_its_name() {
    let item = Item::Struct(ItemStruct {
        ident: "U".to_string(),
        generics: no_generics(),
        kind: FieldsKind::Unit,
        fields: vec![],
        attrs: vec![derive(&["Clone", "Default", "Debug", "PartialEq", "Ord", "Hash"])],
    });
    let all = codes(&item);
    assert_same_code(&all[0], "#[automatically_derived] impl ::core::clone::Clone for U { fn clone(&self) -> Self { U } fn clone_from(&mut self, source: &Self) { } }");
    assert_same_code(&all[1], "#[automatically_derived] impl ::core::default::Default for U { fn default() -> Self { U } }");
    assert_same_code(&all[2], "#[automatically_derived] impl ::core::fmt::Debug for U { fn fmt(&self, f: &mut ::core::fmt::Formatter) -> ::core::fmt::Result { f.debug_tuple(::core::stringify!(U)).finish() } }");
    assert_same_code(&all[3], "#[automatically_derived] #[allow(clippy::double_parens)] #[allow(unused_parens)] impl ::core::cmp::PartialEq for U { fn eq(&self, other: &Self) -> bool { true } }");
    assert_same_code(&all[4], "#[automatically_derived] #[allow(clippy::double_parens)] #[allow(unused_parens)] impl ::core::cmp::Ord for U { fn cmp(&self, other: &Self) -> ::core::cmp::Ordering { ::core::cmp::Ordering::Equal } }");
    assert_same_code(&all[5], "#[automatically_derived] #[allow(clippy::double_parens)] #[allow(unused_parens)] impl ::core::hash::Hash for U { fn hash<H: ::core::hash::Hasher>(&self, state: &mut H) { } }");
}
