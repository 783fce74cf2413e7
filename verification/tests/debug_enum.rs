use derive_ex::attrs::{
    Args, ArgsForCompareOp, ArgsForDebug, ArgsForDefault, AttrArgs, Attribute, DeriveItem,
    DeriveItemArgs, ExprShape, Flag, Meta,
};
use derive_ex::bound::Bound;
use derive_ex::generics::{GenericParam, GenericParamKind, Generics, TypeExpr};
use derive_ex::item::{Field, FieldsKind, ItemEnum, ItemStruct, Variant};
use derive_ex::text::{Fragment, Token};
use proc_macro2::{Delimiter, Spacing, TokenStream, TokenTree};

#[allow(dead_code)]
fn flatten(ts: TokenStream, out: &mut Vec<Token>) {
    for tt in ts {
        match tt {
            TokenTree::Group(g) => {
                let (open, close) = match g.delimiter() {
                    Delimiter::Parenthesis => ("(", ")"),
                    Delimiter::Brace => ("{", "}"),
                    Delimiter::Bracket => ("[", "]"),
                    Delimiter::None => ("", ""),
                };
                if !open.is_empty() {
                    out.push(Token { text: open.to_string(), glued: false });
                }
                flatten(g.stream(), out);
                if !close.is_empty() {
                    out.push(Token { text: close.to_string(), glued: false });
                }
            }
            TokenTree::Punct(p) => out.push(Token {
                text: p.as_char().to_string(),
                glued: p.spacing() == Spacing::Joint,
            }),
            TokenTree::Ident(i) => out.push(Token { text: i.to_string(), glued: false }),
            TokenTree::Literal(l) => out.push(Token { text: l.to_string(), glued: false }),
        }
    }
}

#[allow(dead_code)]
fn frag_at(src: &str, span: usize) -> Fragment {
    let mut tokens = Vec::new();
    flatten(src.parse::<TokenStream>().unwrap(), &mut tokens);
    Fragment { tokens, span }
}

#[allow(dead_code)]
fn frag(src: &str) -> Fragment {
    frag_at(src, 0)
}

#[allow(dead_code)]
fn ty(src: &str, heads: &[&str]) -> TypeExpr {
    TypeExpr { tokens: frag(src), path_heads: heads.iter().map(|s| s.to_string()).collect() }
}

#[allow(dead_code)]
fn no_generics() -> Generics {
    Generics {
        params: vec![],
        impl_generics: frag(""),
        type_generics: frag(""),
        where_predicates: vec![],
    }
}

#[allow(dead_code)]
fn generics(params: &[&str]) -> Generics {
    let list = params.join(", ");
    Generics {
        params: params
            .iter()
            .map(|p| GenericParam { kind: GenericParamKind::Type, ident: p.to_string() })
            .collect(),
        impl_generics: frag(&format!("<{list}>")),
        type_generics: frag(&format!("<{list}>")),
        where_predicates: vec![],
    }
}

#[allow(dead_code)]
fn field(name: Option<&str>, t: TypeExpr, attrs: Vec<Attribute>) -> Field {
    Field { ident: name.map(|s| s.to_string()), ty: t, attrs }
}

#[allow(dead_code)]
fn plain(src: &str) -> Field {
    field(None, ty(src, &[]), vec![])
}

#[allow(dead_code)]
fn tuple_struct(name: &str, g: Generics, fields: Vec<Field>, attrs: Vec<Attribute>) -> ItemStruct {
    ItemStruct { ident: name.to_string(), generics: g, kind: FieldsKind::Unnamed, fields, attrs }
}

#[allow(dead_code)]
fn named_struct(name: &str, g: Generics, fields: Vec<Field>, attrs: Vec<Attribute>) -> ItemStruct {
    ItemStruct { ident: name.to_string(), generics: g, kind: FieldsKind::Named, fields, attrs }
}

#[allow(dead_code)]
fn variant(name: &str, kind: FieldsKind, fields: Vec<Field>, attrs: Vec<Attribute>) -> Variant {
    Variant { ident: name.to_string(), kind, fields, attrs, span: 0 }
}

#[allow(dead_code)]
fn item_enum(name: &str, g: Generics, variants: Vec<Variant>, attrs: Vec<Attribute>) -> ItemEnum {
    ItemEnum { ident: name.to_string(), generics: g, variants, attrs }
}

#[allow(dead_code)]
fn request(names: &[&str]) -> AttrArgs {
    AttrArgs::Derive(Args {
        items: names
            .iter()
            .map(|n| DeriveItem { trait_ident: n.to_string(), span: 0, args: None })
            .collect(),
        bound: None,
        dump: false,
    })
}

#[allow(dead_code)]
fn request_with(names: &[&str], bound: Option<Vec<Bound>>, dump: bool) -> AttrArgs {
    AttrArgs::Derive(Args {
        items: names
            .iter()
            .map(|n| DeriveItem { trait_ident: n.to_string(), span: 0, args: None })
            .collect(),
        bound,
        dump,
    })
}

#[allow(dead_code)]
fn request_item(name: &str, span: usize, bound: Option<Vec<Bound>>, dump: bool) -> DeriveItem {
    DeriveItem {
        trait_ident: name.to_string(),
        span,
        args: Some(DeriveItemArgs { bound, dump }),
    }
}

#[allow(dead_code)]
fn attr(name: &str, meta: Meta) -> Attribute {
    Attribute { ident: Some(name.to_string()), span: 0, meta }
}

#[allow(dead_code)]
fn attr_at(name: &str, span: usize, meta: Meta) -> Attribute {
    Attribute { ident: Some(name.to_string()), span, meta }
}

#[allow(dead_code)]
fn no_flag() -> Flag {
    Flag { span: None }
}

#[allow(dead_code)]
fn flag(span: usize) -> Flag {
    Flag { span: Some(span) }
}

#[allow(dead_code)]
fn compare_args() -> ArgsForCompareOp {
    ArgsForCompareOp { ignore: no_flag(), reverse: no_flag(), by: None, key: None, bound: None }
}

#[allow(dead_code)]
fn compare_attr(name: &str, args: ArgsForCompareOp) -> Attribute {
    attr(name, Meta::List(AttrArgs::Compare(args)))
}

#[allow(dead_code)]
fn key(src: &str) -> Option<Fragment> {
    let mut tokens = Vec::new();
    flatten(src.parse::<TokenStream>().unwrap(), &mut tokens);
    let tokens = derive_ex::compare_expr::dollar_token_to_placeholder(&tokens);
    Some(Fragment { tokens, span: 0 })
}

#[allow(dead_code)]
fn debug_attr(transparent: bool, ignore: bool, bound: Option<Vec<Bound>>) -> Attribute {
    attr(
        "debug",
        Meta::List(AttrArgs::Debug(ArgsForDebug {
            transparent: if transparent { flag(0) } else { no_flag() },
            ignore: if ignore { flag(0) } else { no_flag() },
            bound,
        })),
    )
}

#[allow(dead_code)]
fn default_attr(value: &str, shape: ExprShape, bound: Option<Vec<Bound>>) -> Attribute {
    attr("default", Meta::List(AttrArgs::Default(ArgsForDefault { value: frag(value), shape, bound })))
}

#[allow(dead_code)]
fn norm(code: &str) -> String {
    code.parse::<TokenStream>().unwrap().to_string()
}

#[allow(dead_code)]
fn derive(names: &[&str]) -> Attribute {
    attr("derive_ex", Meta::List(request(names)))
}

#[allow(dead_code)]
fn codes(item: &derive_ex::expand::Item) -> Vec<String> {
    derive_ex::expand::derive_ex_derive(item)
        .into_iter()
        .map(|g| match g {
            derive_ex::driver::Generated::Code(c) => c,
            derive_ex::driver::Generated::Error(d) => panic!("{}", d.message),
        })
        .collect()
}

#[allow(dead_code)]
fn words(code: &str) -> Vec<String> {
    let mut tokens = Vec::new();
    flatten(code.parse::<TokenStream>().unwrap(), &mut tokens);
    tokens.into_iter().map(|t| t.text).collect()
}

#[allow(dead_code)]
fn assert_same_code(actual: &str, expected: &str) {
    let a: syn::File = syn::parse_str(actual).unwrap_or_else(|e| panic!("not Rust: {e}"));
    let e: syn::File = syn::parse_str(expected).unwrap();
    if a != e {
        let a = words(actual);
        let e = words(expected);
        let at = a.iter().zip(e.iter()).position(|(x, y)| x != y).unwrap_or(a.len().min(e.len()));
        let from = at.saturating_sub(8);
        panic!(
            "code differs at token {at}:\n  actual: {}\nexpected: {}",
            a[from..(at + 12).min(a.len())].join(" "),
            e[from..(at + 12).min(e.len())].join(" ")
        );
    }
}

// ---- reading an item from its source text ----

#[allow(dead_code)]
struct Heads(Vec<String>);

impl<'ast> syn::visit::Visit<'ast> for Heads {
    fn visit_path(&mut self, i: &'ast syn::Path) {
        if i.leading_colon.is_none() {
            if let Some(s) = i.segments.iter().next() {
                self.0.push(s.ident.to_string());
            }
        }
        syn::visit::visit_path(self, i);
    }
}

#[allow(dead_code)]
fn frag_of(node: &impl quote::ToTokens) -> Fragment {
    let mut tokens = Vec::new();
    flatten(node.to_token_stream(), &mut tokens);
    Fragment { tokens, span: 0 }
}

#[allow(dead_code)]
fn type_of(t: &syn::Type) -> TypeExpr {
    let mut heads = Heads(Vec::new());
    syn::visit::Visit::visit_type(&mut heads, t);
    TypeExpr { tokens: frag_of(t), path_heads: heads.0 }
}

#[allow(dead_code)]
fn generics_of(g: &syn::Generics) -> Generics {
    let (impl_g, type_g, where_g) = g.split_for_impl();
    Generics {
        params: g
            .params
            .iter()
            .map(|p| match p {
                syn::GenericParam::Lifetime(l) => GenericParam {
                    kind: GenericParamKind::Lifetime,
                    ident: l.lifetime.ident.to_string(),
                },
                syn::GenericParam::Type(t) => {
                    GenericParam { kind: GenericParamKind::Type, ident: t.ident.to_string() }
                }
                syn::GenericParam::Const(c) => {
                    GenericParam { kind: GenericParamKind::Const, ident: c.ident.to_string() }
                }
            })
            .collect(),
        impl_generics: frag_of(&impl_g),
        type_generics: frag_of(&type_g),
        where_predicates: where_g
            .map(|w| w.predicates.iter().map(frag_of).collect())
            .unwrap_or_default(),
    }
}

#[allow(dead_code)]
fn in_parens(input: syn::parse::ParseStream) -> syn::Result<TokenStream> {
    let g: proc_macro2::Group = input.parse()?;
    Ok(g.stream())
}

#[allow(dead_code)]
fn comma(input: syn::parse::ParseStream) -> syn::Result<bool> {
    if input.is_empty() {
        return Ok(false);
    }
    input.parse::<syn::token::Comma>()?;
    Ok(true)
}

#[allow(dead_code)]
fn bounds_in(input: syn::parse::ParseStream) -> syn::Result<Vec<Bound>> {
    let mut out = Vec::new();
    while !input.is_empty() {
        if input.peek(syn::token::DotDot) {
            input.parse::<syn::token::DotDot>()?;
            out.push(Bound::Default);
        } else {
            let fork = input.fork();
            match fork.parse::<syn::WherePredicate>() {
                Ok(p) => {
                    syn::parse::discouraged::Speculative::advance_to(input, &fork);
                    out.push(Bound::Pred(frag_of(&p)));
                }
                Err(e) => match input.parse::<syn::Type>() {
                    Ok(t) => out.push(Bound::Type(frag_of(&t))),
                    Err(_) => return Err(e),
                },
            }
        }
        if !comma(input)? {
            break;
        }
    }
    Ok(out)
}

#[allow(dead_code)]
fn bound_arg(input: syn::parse::ParseStream) -> syn::Result<Vec<Bound>> {
    syn::parse::Parser::parse2(bounds_in, in_parens(input)?)
}

#[allow(dead_code)]
fn derive_args_in(input: syn::parse::ParseStream) -> syn::Result<Args> {
    let mut args = Args { items: Vec::new(), bound: None, dump: false };
    while !input.is_empty() {
        let name: syn::Ident = input.parse()?;
        if name == "dump" {
            args.dump = true;
        } else if name == "bound" {
            args.bound = Some(bound_arg(input)?);
        } else {
            let own = if input.peek(syn::token::Paren) {
                let inner = |input: syn::parse::ParseStream| {
                    let mut own = DeriveItemArgs { bound: None, dump: false };
                    while !input.is_empty() {
                        let name: syn::Ident = input.parse()?;
                        if name == "dump" {
                            own.dump = true;
                        } else if name == "bound" {
                            own.bound = Some(bound_arg(input)?);
                        } else {
                            return Err(syn::Error::new(name.span(), "unexpected argument"));
                        }
                        if !comma(input)? {
                            break;
                        }
                    }
                    Ok(own)
                };
                Some(syn::parse::Parser::parse2(inner, in_parens(input)?)?)
            } else {
                None
            };
            args.items.push(DeriveItem { trait_ident: name.to_string(), span: 0, args: own });
        }
        if !comma(input)? {
            break;
        }
    }
    Ok(args)
}

#[allow(dead_code)]
fn compare_args_in(input: syn::parse::ParseStream) -> syn::Result<ArgsForCompareOp> {
    let mut args = compare_args();
    while !input.is_empty() {
        let name: syn::Ident = input.parse()?;
        if name == "skip" || name == "ignore" {
            args.ignore = flag(0);
        } else if name == "reverse" {
            args.reverse = flag(0);
        } else if name == "bound" {
            args.bound = Some(bound_arg(input)?);
        } else if name == "by" || name == "key" {
            input.parse::<syn::token::Eq>()?;
            let value = frag_of(&input.parse::<syn::Expr>()?);
            if name == "by" {
                args.by = Some(value);
            } else {
                args.key = Some(value);
            }
        } else {
            return Err(syn::Error::new(name.span(), "unexpected argument"));
        }
        if !comma(input)? {
            break;
        }
    }
    Ok(args)
}

#[allow(dead_code)]
fn debug_args_in(input: syn::parse::ParseStream) -> syn::Result<ArgsForDebug> {
    let mut args = ArgsForDebug { transparent: no_flag(), ignore: no_flag(), bound: None };
    while !input.is_empty() {
        let name: syn::Ident = input.parse()?;
        if name == "skip" || name == "ignore" {
            args.ignore = flag(0);
        } else if name == "transparent" {
            args.transparent = flag(0);
        } else if name == "bound" {
            args.bound = Some(bound_arg(input)?);
        } else {
            return Err(syn::Error::new(name.span(), "unexpected argument"));
        }
        if !comma(input)? {
            break;
        }
    }
    Ok(args)
}

#[allow(dead_code)]
fn default_args_in(input: syn::parse::ParseStream) -> syn::Result<ArgsForDefault> {
    let mut args = ArgsForDefault { value: frag("_"), shape: ExprShape::Other, bound: None };
    while !input.is_empty() {
        if input.peek(syn::Ident) && input.peek2(syn::token::Paren) && input.fork().parse::<syn::Ident>()? == "bound" {
            input.parse::<syn::Ident>()?;
            args.bound = Some(bound_arg(input)?);
        } else {
            let value: syn::Expr = input.parse()?;
            args.shape = match &value {
                syn::Expr::Lit(syn::ExprLit { lit: syn::Lit::Str(_), .. }) => ExprShape::StrLit,
                syn::Expr::Path(_) => ExprShape::Path,
                _ => ExprShape::Other,
            };
            args.value = frag_of(&value);
        }
        if !comma(input)? {
            break;
        }
    }
    Ok(args)
}

#[allow(dead_code)]
fn read<T>(
    parser: fn(syn::parse::ParseStream) -> syn::Result<T>,
    tokens: TokenStream,
    wrap: fn(T) -> AttrArgs,
) -> AttrArgs {
    match syn::parse::Parser::parse2(parser, tokens) {
        Ok(a) => wrap(a),
        Err(e) => AttrArgs::Invalid(derive_ex::text::Diagnostic { span: 0, message: e.to_string() }),
    }
}

#[allow(dead_code)]
fn with_placeholders(ts: TokenStream) -> TokenStream {
    let mut tokens = Vec::new();
    flatten(ts, &mut tokens);
    let tokens = derive_ex::compare_expr::dollar_token_to_placeholder(&tokens);
    derive_ex::text::render_tokens(&tokens).parse().unwrap()
}

#[allow(dead_code)]
fn attrs_of(attrs: &[syn::Attribute]) -> Vec<Attribute> {
    attrs
        .iter()
        .map(|a| {
            let ident = a.path().get_ident().map(|i| i.to_string());
            let meta = match &a.meta {
                syn::Meta::Path(_) => Meta::Path,
                syn::Meta::NameValue(_) => Meta::NameValue,
                syn::Meta::List(l) => Meta::List(match ident.as_deref() {
                    Some("derive_ex") => read(derive_args_in, l.tokens.clone(), AttrArgs::Derive),
                    Some("ord" | "partial_ord" | "eq" | "partial_eq" | "hash") => {
                        read(compare_args_in, with_placeholders(l.tokens.clone()), AttrArgs::Compare)
                    }
                    Some("debug") => read(debug_args_in, l.tokens.clone(), AttrArgs::Debug),
                    Some("default") => read(default_args_in, l.tokens.clone(), AttrArgs::Default),
                    _ => AttrArgs::Invalid(derive_ex::text::Diagnostic {
                        span: 0,
                        message: String::new(),
                    }),
                }),
            };
            Attribute { ident, span: 0, meta }
        })
        .collect()
}

#[allow(dead_code)]
fn fields_of(fs: &syn::Fields) -> (FieldsKind, Vec<Field>) {
    let kind = match fs {
        syn::Fields::Named(_) => FieldsKind::Named,
        syn::Fields::Unnamed(_) => FieldsKind::Unnamed,
        syn::Fields::Unit => FieldsKind::Unit,
    };
    let list = fs
        .iter()
        .map(|f| Field {
            ident: f.ident.as_ref().map(|i| i.to_string()),
            ty: type_of(&f.ty),
            attrs: attrs_of(&f.attrs),
        })
        .collect();
    (kind, list)
}

/// The description of the struct or enum written in `src`.
#[allow(dead_code)]
fn describe(src: &str) -> derive_ex::expand::Item {
    match syn::parse_str::<syn::Item>(src).unwrap() {
        syn::Item::Struct(s) => {
            let (kind, fields) = fields_of(&s.fields);
            derive_ex::expand::Item::Struct(ItemStruct {
                ident: s.ident.to_string(),
                generics: generics_of(&s.generics),
                kind,
                fields,
                attrs: attrs_of(&s.attrs),
            })
        }
        syn::Item::Enum(e) => derive_ex::expand::Item::Enum(ItemEnum {
            ident: e.ident.to_string(),
            generics: generics_of(&e.generics),
            variants: e
                .variants
                .iter()
                .map(|v| {
                    let (kind, fields) = fields_of(&v.fields);
                    Variant {
                        ident: v.ident.to_string(),
                        kind,
                        fields,
                        attrs: attrs_of(&v.attrs),
                        span: 0,
                    }
                })
                .collect(),
            attrs: attrs_of(&e.attrs),
        }),
        syn::Item::Impl(i) => derive_ex::expand::Item::Impl(derive_ex::item_impl::ItemImpl {
            generics: generics_of(&i.generics),
            trait_: i.trait_.as_ref().map(|(not, path, _)| derive_ex::item_impl::TraitRef {
                negative: not.is_some(),
                last_segment: path.segments.last().map(|s| derive_ex::item_impl::PathSegment {
                    ident: s.ident.to_string(),
                    arguments: match &s.arguments {
                        syn::PathArguments::None => derive_ex::item_impl::PathArguments::Empty,
                        syn::PathArguments::Parenthesized(_) => {
                            derive_ex::item_impl::PathArguments::Parenthesized
                        }
                        syn::PathArguments::AngleBracketed(a) => {
                            derive_ex::item_impl::PathArguments::AngleBracketed(
                                a.args
                                    .iter()
                                    .map(|arg| match arg {
                                        syn::GenericArgument::Type(t) => {
                                            derive_ex::item_impl::GenericArgument::Type(frag_of(t))
                                        }
                                        _ => derive_ex::item_impl::GenericArgument::Other,
                                    })
                                    .collect(),
                            )
                        }
                    },
                }),
            }),
            self_ty: frag_of(&*i.self_ty),
            types: i
                .items
                .iter()
                .filter_map(|item| match item {
                    syn::ImplItem::Type(t) => Some(derive_ex::item_impl::ImplType {
                        ident: t.ident.to_string(),
                        ty: frag_of(&t.ty),
                    }),
                    _ => None,
                })
                .collect(),
        }),
        syn::Item::Union(_) => derive_ex::expand::Item::Union,
        _ => derive_ex::expand::Item::Other,
    }
}

/// Applies the attribute form with the arguments written in `args` to the
/// item written in `src`, and compares what comes back with `expected`.
#[allow(dead_code)]
fn check_attribute(args: &str, src: &str, expected: &[&str]) {
    let root = read(derive_args_in, args.parse().unwrap(), AttrArgs::Derive);
    let mut item = describe(src);
    let generated = derive_ex::expand::derive_ex(&root, &mut item);
    assert_eq!(generated.len(), expected.len());
    for (g, e) in generated.iter().zip(expected) {
        match g {
            derive_ex::driver::Generated::Code(c) => assert_same_code(c, e),
            derive_ex::driver::Generated::Error(d) => panic!("{}", d.message),
        }
    }
}

/// Applies the derive form to the item written in `src`, and compares what
/// comes back with `expected`.
#[allow(dead_code)]
fn check_derive(src: &str, expected: &[&str]) {
    let generated = derive_ex::expand::derive_ex_derive(&describe(src));
    assert_eq!(generated.len(), expected.len());
    for (g, e) in generated.iter().zip(expected) {
        match g {
            derive_ex::driver::Generated::Code(c) => assert_same_code(c, e),
            derive_ex::driver::Generated::Error(d) => panic!("{}", d.message),
        }
    }
}

#[allow(dead_code)]
fn assert_debug_eq(a: impl std::fmt::Debug, e: impl std::fmt::Debug) {
    assert_eq!(format!("{a:?}"), format!("{e:?}"));
    assert_eq!(format!("{a:#?}"), format!("{e:#?}"));
}

#[allow(dead_code)]
fn assert_eq_hash<T: std::hash::Hash>(v0: T, v1: T) {
    let mut h0 = std::collections::hash_map::DefaultHasher::default();
    v0.hash(&mut h0);
    let mut h1 = std::collections::hash_map::DefaultHasher::default();
    v1.hash(&mut h1);
    assert_eq!(std::hash::Hasher::finish(&h0), std::hash::Hasher::finish(&h1));
}

#[test]
fn debug_enum_unit() {
    let a = {
    check_attribute(
        r#"Debug"#,
        r#"
        #[allow(unused)]
        enum X {
            A,
            B,
        }
        "#,
        &[
            r#"
            #[automatically_derived]
            impl ::core::fmt::Debug for X {
                fn fmt(&self, f: &mut ::core::fmt::Formatter) -> ::core::fmt::Result {
                    match self {
                        Self::A  => f.debug_tuple(::core::stringify!(A)).finish(),
                        Self::B  => f.debug_tuple(::core::stringify!(B)).finish(),
                    }
                }
            }
            "#,
        ],
    );
    #[allow(unused)]
    enum X {
        A,
        B,
    }
    impl ::core::fmt::Debug for X {
        fn fmt(&self, f: &mut ::core::fmt::Formatter) -> ::core::fmt::Result {
            match self {
                Self::A  => f.debug_tuple("A").finish(),
                Self::B  => f.debug_tuple("B").finish(),
            }
        }
    }

        X::A
    };
    let e = {
        #[allow(unused)]
        #[derive(Debug)]
        enum X {
            A,
            B,
        }
        X::A
    };
    assert_debug_eq(a, e);
}

#[test]
fn debug_enum__struct() {
    let a = {
    check_attribute(
        r#"Debug"#,
        r#"
        #[allow(unused)]
        enum X {
            A { x: u32, y: u32 },
            B { x: u32 },
        }
        "#,
        &[
            r#"
            #[automatically_derived]
            impl ::core::fmt::Debug for X {
                fn fmt(&self, f: &mut ::core::fmt::Formatter) -> ::core::fmt::Result {
                    match self {
                        Self::A {
                            x: _x,
                            y: _y,
                        } => f.debug_struct(::core::stringify!(A)).field(::core::stringify!(x), _x).field(::core::stringify!(y), _y).finish(),
                        Self::B {
                            x: _x,
                        } => f.debug_struct(::core::stringify!(B)).field(::core::stringify!(x), _x).finish(),
                    }
                }
            }
            "#,
        ],
    );
    #[allow(unused)]
    enum X {
        A { x: u32, y: u32 },
        B { x: u32 },
    }
    impl ::core::fmt::Debug for X {
        fn fmt(&self, f: &mut ::core::fmt::Formatter) -> ::core::fmt::Result {
            match self {
                Self::A {
                    x: _x,
                    y: _y,
                } => f.debug_struct("A").field("x", _x).field("y", _y).finish(),
                Self::B {
                    x: _x,
                } => f.debug_struct("B").field("x", _x).finish(),
            }
        }
    }

        X::A { x: 1, y: 2 }
    };
    let e = {
        #[allow(unused)]
        #[derive(Debug)]
        enum X {
            A { x: u32, y: u32 },
            B { x: u32 },
        }
        X::A { x: 1, y: 2 }
    };
    assert_debug_eq(a, e);
}

#[test]
fn debug_enum_tuple() {
    let a = {
    check_attribute(
        r#"Debug"#,
        r#"
        #[allow(unused)]
        enum X {
            A(u32, u32),
            B(u32),
        }
        "#,
        &[
            r#"
            #[automatically_derived]
            impl ::core::fmt::Debug for X {
                fn fmt(&self, f: &mut ::core::fmt::Formatter) -> ::core::fmt::Result {
                    match self {
                        Self::A (_0, _1, ) => f.debug_tuple(::core::stringify!(A)).field(_0).field(_1).finish(),
                        Self::B (_0, ) => f.debug_tuple(::core::stringify!(B)).field(_0).finish(),
                    }
                }
            }
            "#,
        ],
    );
    #[allow(unused)]
    enum X {
        A(u32, u32),
        B(u32),
    }
    impl ::core::fmt::Debug for X {
        fn fmt(&self, f: &mut ::core::fmt::Formatter) -> ::core::fmt::Result {
            match self {
                Self::A (_0, _1, ) => f.debug_tuple("A").field(_0).field(_1).finish(),
                Self::B (_0, ) => f.debug_tuple("B").field(_0).finish(),
            }
        }
    }

        X::A(1, 2)
    };
    let e = {
        #[allow(unused)]
        #[derive(Debug)]
        enum X {
            A(u32, u32),
            B(u32),
        }
        X::A(1, 2)
    };
    assert_debug_eq(a, e);
}

#[test]
fn skip() {
    let a = {
    check_attribute(
        r#"Debug"#,
        r#"
        #[allow(unused)]
        enum X {
            A {
                #[debug(skip)]
                x: u32,
                y: u32,
            },
            B {
                x: u32,
            },
        }
        "#,
        &[
            r#"
            #[automatically_derived]
            impl ::core::fmt::Debug for X {
                fn fmt(&self, f: &mut ::core::fmt::Formatter) -> ::core::fmt::Result {
                    match self {
                        Self::A {
                            x: _x,
                            y: _y,
                        } => f.debug_struct(::core::stringify!(A)).field(::core::stringify!(y), _y).finish(),
                        Self::B {
                            x: _x,
                        } => f.debug_struct(::core::stringify!(B)).field(::core::stringify!(x), _x).finish(),
                    }
                }
            }
            "#,
        ],
    );
    #[allow(unused)]
    enum X {
        A {
            x: u32,
            y: u32,
        },
        B {
            x: u32,
        },
    }
    impl ::core::fmt::Debug for X {
        fn fmt(&self, f: &mut ::core::fmt::Formatter) -> ::core::fmt::Result {
            match self {
                Self::A {
                    x: _x,
                    y: _y,
                } => f.debug_struct("A").field("y", _y).finish(),
                Self::B {
                    x: _x,
                } => f.debug_struct("B").field("x", _x).finish(),
            }
        }
    }

        X::A { x: 1, y: 2 }
    };
    let e = {
        #[allow(unused)]
        enum X {
            A { x: u32, y: u32 },
            B { x: u32 },
        }
        impl std::fmt::Debug for X {
            fn fmt(&self, f: &mut std::fmt::Formatter<'_>) -> std::fmt::Result {
                match self {
                    X::A { y, .. } => f.debug_struct("A").field("y", y).finish(),
                    X::B { .. } => unreachable!(),
                }
            }
        }
        X::A { x: 1, y: 2 }
    };
    assert_debug_eq(a, e);
}

#[test]
fn transparent() {
    let a = {
    check_attribute(
        r#"Debug"#,
        r#"
        #[allow(unused)]
        enum X {
            A(#[debug(transparent)] u32),
            B(u32),
        }
        "#,
        &[
            r#"
            #[automatically_derived]
            impl ::core::fmt::Debug for X {
                fn fmt(&self, f: &mut ::core::fmt::Formatter) -> ::core::fmt::Result {
                    match self {
                        Self::A (_0, ) => ::core::fmt::Debug::fmt(_0, f),
                        Self::B (_0, ) => f.debug_tuple(::core::stringify!(B)).field(_0).finish(),
                    }
                }
            }
            "#,
        ],
    );
    #[allow(unused)]
    enum X {
        A( u32),
        B(u32),
    }
    impl ::core::fmt::Debug for X {
        fn fmt(&self, f: &mut ::core::fmt::Formatter) -> ::core::fmt::Result {
            match self {
                Self::A (_0, ) => ::core::fmt::Debug::fmt(_0, f),
                Self::B (_0, ) => f.debug_tuple("B").field(_0).finish(),
            }
        }
    }

        X::A(1)
    };
    let e = 1;
    assert_debug_eq(a, e);
}
