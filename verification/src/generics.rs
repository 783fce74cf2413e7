//! Generic parameters, the types of fields, and the replacement of `Self`.

use vstd::prelude::*;
use crate::text::{
    clone_token, contains_str, extend_tokens, holds, str_eq, strings_view, tokens_view, unraw,
    unraw_spec, Fragment, FragmentView, Token, TokenView, fragments_view,
};

verus! {

/// What a generic parameter stands for.
#[derive(Debug, Copy, Clone, Eq, PartialEq, Structural)]
pub enum GenericParamKind {
    Lifetime,
    Type,
    Const,
}

/// One generic parameter of an item.
pub struct GenericParam {
    pub kind: GenericParamKind,
    pub ident: String,
}

/// The mathematical value of a [`GenericParam`].
pub struct GenericParamView {
    pub kind: GenericParamKind,
    pub ident: Seq<char>,
}

impl View for GenericParam {
    type V = GenericParamView;

    open spec fn view(&self) -> GenericParamView {
        GenericParamView { kind: self.kind, ident: self.ident@ }
    }
}

/// The generics of an item, each part as it is written in an `impl` for
/// the item.
pub struct Generics {
    /// The parameters, in declaration order.
    pub params: Vec<GenericParam>,
    /// What follows `impl`: the bracketed parameters with their bounds,
    /// without defaults. Empty where the item has no parameters.
    pub impl_generics: Fragment,
    /// What follows the item's name: the bracketed parameter names.
    pub type_generics: Fragment,
    /// The predicates of the item's `where` clause.
    pub where_predicates: Vec<Fragment>,
}

/// The mathematical value of [`Generics`].
pub struct GenericsView {
    pub params: Seq<GenericParamView>,
    pub impl_generics: FragmentView,
    pub type_generics: FragmentView,
    pub where_predicates: Seq<FragmentView>,
}

impl View for Generics {
    type V = GenericsView;

    open spec fn view(&self) -> GenericsView {
        GenericsView {
            params: self.params@.map_values(|p: GenericParam| p@),
            impl_generics: self.impl_generics@,
            type_generics: self.type_generics@,
            where_predicates: fragments_view(self.where_predicates@),
        }
    }
}

/// The type of a field.
pub struct TypeExpr {
    /// The type as written.
    pub tokens: Fragment,
    /// The first identifier of every path in the type that does not start
    /// with `::`, in any order.
    pub path_heads: Vec<String>,
}

/// The mathematical value of a [`TypeExpr`].
pub struct TypeExprView {
    pub tokens: FragmentView,
    pub path_heads: Seq<Seq<char>>,
}

impl View for TypeExpr {
    type V = TypeExprView;

    open spec fn view(&self) -> TypeExprView {
        TypeExprView { tokens: self.tokens@, path_heads: strings_view(self.path_heads@) }
    }
}

/// The names of the type and const parameters among `params`, without the
/// mark of a raw identifier, in declaration order.
pub open spec fn param_names(params: Seq<GenericParamView>) -> Seq<Seq<char>>
    decreases params.len(),
{
    if params.len() == 0 {
        Seq::empty()
    } else if params.last().kind == GenericParamKind::Lifetime {
        param_names(params.drop_last())
    } else {
        param_names(params.drop_last()).push(unraw_spec(params.last().ident))
    }
}

/// Whether one of `heads` names a parameter of `names`.
pub open spec fn mentions(names: Seq<Seq<char>>, heads: Seq<Seq<char>>) -> bool {
    exists|i: int| 0 <= i < heads.len() && holds(names, unraw_spec(#[trigger] heads[i]))
}

/// The type and const parameters of an item.
pub struct GenericParamSet {
    pub idents: Vec<String>,
}

impl View for GenericParamSet {
    type V = Seq<Seq<char>>;

    open spec fn view(&self) -> Seq<Seq<char>> {
        strings_view(self.idents@)
    }
}

impl GenericParamSet {
    /// Collects the type and const parameters of `generics`.
    pub fn new(generics: &Generics) -> (r: Self)
        ensures
            r@ == param_names(generics@.params),
    {
        let mut idents: Vec<String> = Vec::new();
        let ghost all = generics@.params;
        let mut i: usize = 0;
        assert(strings_view(idents@) =~= param_names(all.take(0)));
        while i < generics.params.len()
            invariant
                i <= generics.params.len(),
                all == generics@.params,
                strings_view(idents@) == param_names(all.take(i as int)),
            decreases generics.params.len() - i,
        {
            let ghost before = strings_view(idents@);
            proof {
                let next = all.take(i as int + 1);
                assert(next.drop_last() =~= all.take(i as int));
                assert(next.last() == generics.params@[i as int]@);
            }
            let p = &generics.params[i];
            match p.kind {
                GenericParamKind::Lifetime => {},
                _ => {
                    let name = unraw(p.ident.as_str());
                    idents.push(name);
                    assert(strings_view(idents@) =~= before.push(name@));
                },
            }
            i = i + 1;
        }
        assert(all.take(generics.params.len() as int) =~= all);
        Self { idents }
    }

    /// Whether `ident` names a parameter of the set.
    pub fn contains(&self, ident: &str) -> (r: bool)
        ensures
            r == holds(self@, unraw_spec(ident@)),
    {
        let name = unraw(ident);
        contains_str(&self.idents, name.as_str())
    }

    /// Whether the type `ty` mentions a parameter of the set.
    pub fn contains_in_type(&self, ty: &TypeExpr) -> (r: bool)
        ensures
            r == mentions(self@, ty@.path_heads),
    {
        let mut i: usize = 0;
        while i < ty.path_heads.len()
            invariant
                i <= ty.path_heads.len(),
                forall|j: int| 0 <= j < i ==> !holds(self@, unraw_spec(ty.path_heads@[j]@)),
            decreases ty.path_heads.len() - i,
        {
            if self.contains(ty.path_heads[i].as_str()) {
                assert(ty@.path_heads[i as int] == ty.path_heads@[i as int]@);
                return true;
            }
            i = i + 1;
        }
        assert forall|j: int| 0 <= j < ty@.path_heads.len() implies !holds(
            self@,
            unraw_spec(#[trigger] ty@.path_heads[j]),
        ) by {
            assert(ty@.path_heads[j] == ty.path_heads@[j]@);
        }
        false
    }
}

/// Whether the token at `i` of `ts` is the type `Self`: the word `Self`,
/// not followed by `::`.
pub open spec fn is_self_type(ts: Seq<TokenView>, i: int) -> bool {
    &&& 0 <= i < ts.len()
    &&& ts[i].text == "Self"@
    &&& !(i + 2 < ts.len() && ts[i + 1].text == ":"@ && ts[i + 1].glued && ts[i + 2].text
        == ":"@)
}

/// The first `n` tokens of `ts`, with every `Self` type among them replaced
/// by the tokens `to`.
pub open spec fn self_expanded_upto(ts: Seq<TokenView>, to: Seq<TokenView>, n: int) -> Seq<
    TokenView,
>
    decreases n,
{
    if n <= 0 {
        Seq::empty()
    } else if is_self_type(ts, n - 1) {
        self_expanded_upto(ts, to, n - 1) + to
    } else {
        self_expanded_upto(ts, to, n - 1).push(ts[n - 1])
    }
}

/// `ts` with every `Self` type replaced by the tokens `to`.
pub open spec fn self_expanded(ts: Seq<TokenView>, to: Seq<TokenView>) -> Seq<TokenView> {
    self_expanded_upto(ts, to, ts.len() as int)
}

/// A fragment with every `Self` type replaced by the type `to`.
pub open spec fn fragment_self_expanded(f: FragmentView, to: FragmentView) -> FragmentView {
    FragmentView { tokens: self_expanded(f.tokens, to.tokens), span: f.span }
}

/// Generics with every `Self` type in the parameter list and in the
/// predicates replaced by the type `to`.
pub open spec fn generics_self_expanded(g: GenericsView, to: FragmentView) -> GenericsView {
    GenericsView {
        params: g.params,
        impl_generics: fragment_self_expanded(g.impl_generics, to),
        type_generics: g.type_generics,
        where_predicates: g.where_predicates.map_values(
            |p: FragmentView| fragment_self_expanded(p, to),
        ),
    }
}

/// Replaces every `Self` type in `input` by the type `to`.
pub fn expand_self(input: &Fragment, to: &Fragment) -> (r: Fragment)
    ensures
        r@ == fragment_self_expanded(input@, to@),
{
    let ghost ts = input@.tokens;
    let n = input.tokens.len();
    let mut out: Vec<Token> = Vec::new();
    let mut i: usize = 0;
    assert(tokens_view(out@) =~= self_expanded_upto(ts, to@.tokens, 0));
    while i < n
        invariant
            i <= n,
            n == input.tokens.len(),
            ts == tokens_view(input.tokens@),
            tokens_view(out@) == self_expanded_upto(ts, to@.tokens, i as int),
        decreases n - i,
    {
        let ghost before = tokens_view(out@);
        let mut is_self = str_eq(input.tokens[i].text.as_str(), "Self");
        if is_self && n - i > 2 {
            let a = &input.tokens[i + 1];
            let b = &input.tokens[i + 2];
            if a.glued && str_eq(a.text.as_str(), ":") && str_eq(b.text.as_str(), ":") {
                is_self = false;
            }
        }
        assert(is_self == is_self_type(ts, i as int));
        if is_self {
            extend_tokens(&mut out, &to.tokens);
        } else {
            let t = clone_token(&input.tokens[i]);
            out.push(t);
            assert(tokens_view(out@) =~= before.push(t@));
        }
        i = i + 1;
    }
    Fragment { tokens: out, span: input.span }
}

/// A copy of a generic parameter.
pub fn clone_generic_param(p: &GenericParam) -> (r: GenericParam)
    ensures
        r@ == p@,
{
    GenericParam { kind: p.kind, ident: p.ident.clone() }
}

/// Replaces every `Self` type in the parameter list and the predicates of
/// `input` by the type `to`.
pub fn expand_self_in_generics(input: &Generics, to: &Fragment) -> (r: Generics)
    ensures
        r@ == generics_self_expanded(input@, to@),
{
    let mut params: Vec<GenericParam> = Vec::new();
    let mut i: usize = 0;
    while i < input.params.len()
        invariant
            i <= input.params.len(),
            params@.len() == i,
            forall|j: int| 0 <= j < i ==> params@[j]@ == input.params@[j]@,
        decreases input.params.len() - i,
    {
        params.push(clone_generic_param(&input.params[i]));
        i = i + 1;
    }
    let mut preds: Vec<Fragment> = Vec::new();
    let mut k: usize = 0;
    while k < input.where_predicates.len()
        invariant
            k <= input.where_predicates.len(),
            preds@.len() == k,
            forall|j: int|
                0 <= j < k ==> preds@[j]@ == fragment_self_expanded(
                    input.where_predicates@[j]@,
                    to@,
                ),
        decreases input.where_predicates.len() - k,
    {
        preds.push(expand_self(&input.where_predicates[k], to));
        k = k + 1;
    }
    let r = Generics {
        params,
        impl_generics: expand_self(&input.impl_generics, to),
        type_generics: crate::text::clone_fragment(&input.type_generics),
        where_predicates: preds,
    };
    assert(r@.params =~= input@.params);
    assert(r@.where_predicates =~= generics_self_expanded(input@, to@).where_predicates);
    r
}

} // verus!
