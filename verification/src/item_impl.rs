//! The operators that are made from one implementation written by hand:
//! the missing combinations of values and references, and the assigning
//! form from the binary one or the other way round.

use vstd::prelude::*;
use crate::attrs::{AttrArgs, AttrArgsView, DeriveItemView};
use crate::bound::put_predicates;
use crate::common::BinaryOp;
use crate::derive_ops::{with_ref, with_ref_text};
use crate::generics::{
    expand_self, expand_self_in_generics, fragment_self_expanded, generics_self_expanded, Generics,
    GenericsView,
};
use crate::helper::unexpected_arguments_message;
use crate::impl_text::{
    push_assign_from_binary, push_binary_from_assign, push_binary_from_binary,
    put_assign_from_binary, put_binary_from_assign, put_binary_from_binary,
};
use crate::text::{
    clone_fragment, clone_token, push_fragment, render, render_tokens, str_eq, strip_suffix,
    strip_suffix_spec, tokens_view, Diagnostic, DiagnosticView, Fragment, FragmentView, Token,
    TokenView, CALL_SITE,
};

verus! {

/// The form of an operator.
#[derive(Clone, Copy, Debug, Eq, PartialEq, Structural)]
pub enum OpForm {
    /// `a + b`.
    Binary,
    /// `a += b`.
    Assign,
}

/// An operator in one of its forms.
#[derive(Debug, Copy, Clone, Eq, PartialEq, Structural)]
pub struct Op {
    pub op: BinaryOp,
    pub form: OpForm,
}

impl Op {
    /// The operator whose trait is named `s`, if there is one: a name that
    /// ends in `Assign` names the assigning form of the operator before
    /// it.
    pub open spec fn named(s: Seq<char>) -> Option<Op> {
        if let Some(head) = strip_suffix_spec(s, "Assign"@) {
            match BinaryOp::named(head) {
                Some(op) => Some(Op { op, form: OpForm::Assign }),
                None => None,
            }
        } else {
            match BinaryOp::named(s) {
                Some(op) => Some(Op { op, form: OpForm::Binary }),
                None => None,
            }
        }
    }

    /// The name of the operator's trait.
    pub open spec fn name(self) -> Seq<char> {
        if self.form == OpForm::Assign {
            Seq::empty() + self.op.name() + "Assign"@
        } else {
            Seq::empty() + self.op.name()
        }
    }

    /// The name of the operator's method.
    pub open spec fn func_name(self) -> Seq<char> {
        if self.form == OpForm::Assign {
            Seq::empty() + self.op.func_name() + "_assign"@
        } else {
            Seq::empty() + self.op.func_name()
        }
    }

    /// The full path of the operator's trait.
    pub open spec fn path(self) -> Seq<char> {
        if self.form == OpForm::Assign {
            Seq::empty() + "::core::ops::"@ + self.op.name() + "Assign"@
        } else {
            Seq::empty() + "::core::ops::"@ + self.op.name()
        }
    }

    /// The complaint about a name that is no operator's.
    pub open spec fn unknown_message(s: Seq<char>) -> Seq<char> {
        "`"@ + s + "` is not supported for `#[derive_ex]`"@
    }

    /// What reading the identifier `s` gives: the operator it names, or the
    /// complaint that it names none.
    pub open spec fn of_ident(s: Seq<char>) -> Result<Op, DiagnosticView> {
        match Self::named(s) {
            Some(op) => Ok(op),
            None => Err(DiagnosticView { span: CALL_SITE, message: Self::unknown_message(s) }),
        }
    }

    /// The operator `op` in the form `form`.
    pub fn new(op: BinaryOp, form: OpForm) -> (r: Self)
        ensures
            r == (Op { op, form }),
    {
        Op { op, form }
    }

    /// Reads the name of an operator's trait.
    pub fn from_str(s: &str) -> (r: Option<Self>)
        ensures
            r == Self::named(s@),
    {
        match strip_suffix(s, "Assign") {
            Some(head) => match BinaryOp::from_str(head.as_str()) {
                Some(op) => Some(Self::new(op, OpForm::Assign)),
                None => None,
            },
            None => match BinaryOp::from_str(s) {
                Some(op) => Some(Self::new(op, OpForm::Binary)),
                None => None,
            },
        }
    }

    /// Reads an identifier as the name of an operator's trait.
    pub fn from_ident(s: &str) -> (r: Result<Self, Diagnostic>)
        ensures
            match r {
                Ok(op) => Self::of_ident(s@) == Ok::<Op, DiagnosticView>(op),
                Err(d) => Self::of_ident(s@) == Err::<Op, DiagnosticView>(d@),
            },
    {
        match Self::from_str(s) {
            Some(op) => Ok(op),
            None => {
                let mut message = "`".to_owned();
                message.append(s);
                message.append("` is not supported for `#[derive_ex]`");
                Err(Diagnostic { span: CALL_SITE, message })
            },
        }
    }

    /// The name of the operator's method.
    pub fn to_func_ident(self) -> (r: String)
        ensures
            r@ == self.func_name(),
    {
        let mut s = String::new();
        s.append(self.op.to_func_name());
        match self.form {
            OpForm::Assign => {
                s.append("_assign");
            },
            OpForm::Binary => {},
        }
        s
    }

    /// The name of the operator's trait.
    pub fn to_trait_ident(self) -> (r: String)
        ensures
            r@ == self.name(),
    {
        let mut s = String::new();
        s.append(self.op.to_str());
        match self.form {
            OpForm::Assign => {
                s.append("Assign");
            },
            OpForm::Binary => {},
        }
        s
    }

    /// The full path of the operator's trait.
    pub fn to_trait_path(self) -> (r: String)
        ensures
            r@ == self.path(),
    {
        let mut s = String::new();
        s.append("::core::ops::");
        s.append(self.op.to_str());
        match self.form {
            OpForm::Assign => {
                s.append("Assign");
            },
            OpForm::Binary => {},
        }
        s
    }
}

/// One argument between the angle brackets of a path segment.
pub enum GenericArgument {
    Type(Fragment),
    /// A lifetime, a constant, a binding.
    Other,
}

/// The mathematical value of a [`GenericArgument`].
pub enum GenericArgumentView {
    Type(FragmentView),
    Other,
}

impl View for GenericArgument {
    type V = GenericArgumentView;

    open spec fn view(&self) -> GenericArgumentView {
        match self {
            GenericArgument::Type(f) => GenericArgumentView::Type(f@),
            GenericArgument::Other => GenericArgumentView::Other,
        }
    }
}

/// What follows the name in a path segment.
pub enum PathArguments {
    /// Nothing.
    Empty,
    AngleBracketed(Vec<GenericArgument>),
    Parenthesized,
}

/// The mathematical value of [`PathArguments`].
pub enum PathArgumentsView {
    Empty,
    AngleBracketed(Seq<GenericArgumentView>),
    Parenthesized,
}

impl View for PathArguments {
    type V = PathArgumentsView;

    open spec fn view(&self) -> PathArgumentsView {
        match self {
            PathArguments::Empty => PathArgumentsView::Empty,
            PathArguments::AngleBracketed(args) => PathArgumentsView::AngleBracketed(
                args@.map_values(|a: GenericArgument| a@),
            ),
            PathArguments::Parenthesized => PathArgumentsView::Parenthesized,
        }
    }
}

/// One segment of a path.
pub struct PathSegment {
    pub ident: String,
    pub arguments: PathArguments,
}

/// The mathematical value of a [`PathSegment`].
pub struct PathSegmentView {
    pub ident: Seq<char>,
    pub arguments: PathArgumentsView,
}

impl View for PathSegment {
    type V = PathSegmentView;

    open spec fn view(&self) -> PathSegmentView {
        PathSegmentView { ident: self.ident@, arguments: self.arguments@ }
    }
}

/// The trait of an implementation.
pub struct TraitRef {
    /// Whether the implementation is written `impl !Trait for ...`.
    pub negative: bool,
    /// The last segment of the trait's path, where the path has one.
    pub last_segment: Option<PathSegment>,
}

/// The mathematical value of a [`TraitRef`].
pub struct TraitRefView {
    pub negative: bool,
    pub last_segment: Option<PathSegmentView>,
}

impl View for TraitRef {
    type V = TraitRefView;

    open spec fn view(&self) -> TraitRefView {
        TraitRefView {
            negative: self.negative,
            last_segment: match self.last_segment {
                Some(s) => Some(s@),
                None => None,
            },
        }
    }
}

/// An associated type defined in an implementation.
pub struct ImplType {
    pub ident: String,
    pub ty: Fragment,
}

/// The mathematical value of an [`ImplType`].
pub struct ImplTypeView {
    pub ident: Seq<char>,
    pub ty: FragmentView,
}

impl View for ImplType {
    type V = ImplTypeView;

    open spec fn view(&self) -> ImplTypeView {
        ImplTypeView { ident: self.ident@, ty: self.ty@ }
    }
}

/// An implementation written by hand.
pub struct ItemImpl {
    pub generics: Generics,
    pub trait_: Option<TraitRef>,
    pub self_ty: Fragment,
    /// The associated types that the implementation defines, in order.
    pub types: Vec<ImplType>,
}

/// The mathematical value of an [`ItemImpl`].
pub struct ItemImplView {
    pub generics: GenericsView,
    pub trait_: Option<TraitRefView>,
    pub self_ty: FragmentView,
    pub types: Seq<ImplTypeView>,
}

impl View for ItemImpl {
    type V = ItemImplView;

    open spec fn view(&self) -> ItemImplView {
        ItemImplView {
            generics: self.generics@,
            trait_: match self.trait_ {
                Some(t) => Some(t@),
                None => None,
            },
            self_ty: self.self_ty@,
            types: self.types@.map_values(|t: ImplType| t@),
        }
    }
}

/// What the arguments of the annotation ask to be made.
#[derive(Debug, Copy, Clone)]
pub struct ImplArgs {
    pub dump: bool,
    pub make_binary: bool,
    pub make_assign: bool,
}

/// The complaint about a request for another operator than the one that
/// the implementation is of.
pub open spec fn expected_message(op: BinaryOp) -> Seq<char> {
    "expected `"@ + (Op { op, form: OpForm::Binary }).name() + "` or `"@ + (Op {
        op,
        form: OpForm::Assign,
    }).name() + "`"@
}

/// What the requests `items` from position `i` on ask to be made of an
/// implementation of `op`, where `acc` holds what the requests before ask
/// for. Each request must name `op` in one of its forms.
pub open spec fn impl_args_from(
    items: Seq<DeriveItemView>,
    op: Op,
    i: int,
    acc: ImplArgs,
) -> Result<
    ImplArgs,
    DiagnosticView,
>
    decreases items.len() - i,
{
    if i < 0 || i >= items.len() {
        Ok(acc)
    } else {
        match Op::of_ident(items[i].trait_ident) {
            Err(d) => Err(d),
            Ok(target) => if target.op != op.op {
                Err(DiagnosticView { span: items[i].span, message: expected_message(op.op) })
            } else if target.form == OpForm::Binary {
                impl_args_from(items, op, i + 1, ImplArgs { make_binary: true, ..acc })
            } else {
                impl_args_from(items, op, i + 1, ImplArgs { make_assign: true, ..acc })
            },
        }
    }
}

/// What the arguments `attr` of the annotation ask to be made of an
/// implementation of `op`.
pub open spec fn impl_args_of(attr: AttrArgsView, op: Op) -> Result<ImplArgs, DiagnosticView> {
    match attr {
        AttrArgsView::Derive(args) => impl_args_from(
            args.items,
            op,
            0,
            ImplArgs { dump: args.dump, make_binary: false, make_assign: false },
        ),
        AttrArgsView::Invalid(d) => Err(d),
        _ => Err(
            DiagnosticView {
                span: CALL_SITE,
                message: unexpected_arguments_message("derive_ex"@),
            },
        ),
    }
}

impl ImplArgs {
    /// Reads what the arguments of the annotation ask to be made of an
    /// implementation of `op`.
    pub fn from_attr_args(attr: &AttrArgs, op: Op) -> (r: Result<ImplArgs, Diagnostic>)
        ensures
            match r {
                Ok(a) => impl_args_of(attr@, op) == Ok::<ImplArgs, DiagnosticView>(a),
                Err(d) => impl_args_of(attr@, op) == Err::<ImplArgs, DiagnosticView>(d@),
            },
    {
        let args = match attr {
            AttrArgs::Derive(args) => args,
            AttrArgs::Invalid(d) => {
                return Err(crate::attrs::clone_diagnostic(d));
            },
            _ => {
                let mut message = "unexpected arguments for `#[".to_owned();
                message.append("derive_ex");
                message.append("]`");
                return Err(Diagnostic { span: CALL_SITE, message });
            },
        };
        let ghost items = args@.items;
        let mut acc = ImplArgs { dump: args.dump, make_binary: false, make_assign: false };
        let ghost start = acc;
        let mut i: usize = 0;
        while i < args.items.len()
            invariant
                i <= args.items.len(),
                items == args@.items,
                attr@ == AttrArgsView::Derive(args@),
                start == (ImplArgs { dump: args.dump, make_binary: false, make_assign: false }),
                impl_args_from(items, op, 0, start) == impl_args_from(items, op, i as int, acc),
            decreases args.items.len() - i,
        {
            let item = &args.items[i];
            assert(items[i as int] == item@);
            let target_op = Op::from_ident(item.trait_ident.as_str())?;
            if target_op.op != op.op {
                let mut message = "expected `".to_owned();
                let b = Op::new(op.op, OpForm::Binary).to_trait_ident();
                let a = Op::new(op.op, OpForm::Assign).to_trait_ident();
                message.append(b.as_str());
                message.append("` or `");
                message.append(a.as_str());
                message.append("`");
                return Err(Diagnostic { span: item.span, message });
            }
            match target_op.form {
                OpForm::Binary => {
                    acc.make_binary = true;
                },
                OpForm::Assign => {
                    acc.make_assign = true;
                },
            }
            i = i + 1;
        }
        Ok(acc)
    }
}

/// Whether the token `t` starts a lifetime.
pub open spec fn starts_lifetime(t: TokenView) -> bool {
    t.text.len() > 0 && t.text[0] == '\''
}

/// Whether `f` is a plain shared reference: `&`, then neither a lifetime
/// nor `mut`.
pub open spec fn is_plain_ref(f: FragmentView) -> bool {
    &&& f.tokens.len() >= 2
    &&& f.tokens[0].text == "&"@
    &&& !starts_lifetime(f.tokens[1])
    &&& f.tokens[1].text != "mut"@
}

/// What a plain shared reference refers to, with `true`; any other type as
/// it is, with `false`.
pub open spec fn ref_elem(f: FragmentView) -> (FragmentView, bool) {
    if is_plain_ref(f) {
        (FragmentView { tokens: f.tokens.skip(1), span: f.span }, true)
    } else {
        (f, false)
    }
}

/// Splits a plain shared reference into what it refers to and `true`; any
/// other type is returned as it is, with `false`.
pub fn to_ref_elem(ty: &Fragment) -> (r: (Fragment, bool))
    ensures
        (r.0@, r.1) == ref_elem(ty@),
{
    let ghost ts = tokens_view(ty.tokens@);
    if ty.tokens.len() >= 2 && str_eq(ty.tokens[0].text.as_str(), "&") {
        let t = &ty.tokens[1];
        assert(ts[0] == ty.tokens@[0]@);
        assert(ts[1] == t@);
        let lifetime = t.text.as_str().unicode_len() > 0 && t.text.as_str().get_char(0) == '\'';
        if !lifetime && !str_eq(t.text.as_str(), "mut") {
            let mut tokens: Vec<Token> = Vec::new();
            let mut i: usize = 1;
            assert(tokens_view(tokens@) =~= ts.subrange(1, 1));
            while i < ty.tokens.len()
                invariant
                    1 <= i <= ty.tokens.len(),
                    ts == tokens_view(ty.tokens@),
                    tokens_view(tokens@) == ts.subrange(1, i as int),
                decreases ty.tokens.len() - i,
            {
                let c = clone_token(&ty.tokens[i]);
                let ghost before = tokens_view(tokens@);
                tokens.push(c);
                assert(tokens_view(tokens@) =~= before.push(c@));
                assert(ts.subrange(1, i as int + 1) =~= ts.subrange(1, i as int).push(
                    ts[i as int],
                ));
                i = i + 1;
            }
            assert(ts.subrange(1, ty.tokens.len() as int) =~= ts.skip(1));
            return (Fragment { tokens, span: ty.span }, true);
        }
    }
    (clone_fragment(ty), false)
}

/// The type of the right side of the operator: the one type argument of
/// the trait, with `Self` written out, or the type that the trait is
/// implemented for.
pub open spec fn rhs_of(s: PathSegmentView, self_ty: FragmentView) -> FragmentView {
    match s.arguments {
        PathArgumentsView::AngleBracketed(args) => if args.len() == 1 {
            match args[0] {
                GenericArgumentView::Type(ty) => fragment_self_expanded(ty, self_ty),
                GenericArgumentView::Other => self_ty,
            }
        } else {
            self_ty
        },
        _ => self_ty,
    }
}

/// The type of the right side of the operator.
pub fn to_rhs(s: &PathSegment, self_ty: &Fragment) -> (r: Fragment)
    ensures
        r@ == rhs_of(s@, self_ty@),
{
    if let PathArguments::AngleBracketed(args) = &s.arguments {
        if args.len() == 1 {
            assert(args@.map_values(|a: GenericArgument| a@)[0] == args@[0]@);
            if let GenericArgument::Type(ty) = &args[0] {
                return expand_self(ty, self_ty);
            }
        }
    }
    clone_fragment(self_ty)
}

/// The position of the first associated type named `Output` among the
/// first `n` of `types`.
pub open spec fn output_upto(types: Seq<ImplTypeView>, n: int) -> Option<int>
    decreases n,
{
    if n <= 0 {
        None
    } else if output_upto(types, n - 1) is Some {
        output_upto(types, n - 1)
    } else if types[n - 1].ident == "Output"@ {
        Some(n - 1)
    } else {
        None
    }
}

/// The associated type `Output` of the implementation, or the complaint
/// that there is none.
pub open spec fn output_type_of(item: ItemImplView) -> Result<FragmentView, DiagnosticView> {
    match output_upto(item.types, item.types.len() as int) {
        Some(i) => Ok(item.types[i].ty),
        None => Err(
            DiagnosticView {
                span: CALL_SITE,
                message: "cannot find associate type `Output`"@,
            },
        ),
    }
}

/// Finds the associated type `Output` of the implementation.
pub fn find_output_type(item_impl: &ItemImpl) -> (r: Result<&Fragment, Diagnostic>)
    ensures
        match r {
            Ok(f) => output_type_of(item_impl@) == Ok::<FragmentView, DiagnosticView>(f@),
            Err(d) => output_type_of(item_impl@) == Err::<FragmentView, DiagnosticView>(d@),
        },
{
    let ghost types = item_impl@.types;
    let mut i: usize = 0;
    while i < item_impl.types.len()
        invariant
            i <= item_impl.types.len(),
            types == item_impl@.types,
            output_upto(types, i as int) is None,
        decreases item_impl.types.len() - i,
    {
        assert(types[i as int] == item_impl.types@[i as int]@);
        if str_eq(item_impl.types[i].ident.as_str(), "Output") {
            assert(output_upto(types, i as int + 1) == Some(i as int));
            assert(output_type_of(item_impl@) == Ok::<FragmentView, DiagnosticView>(
                item_impl.types@[i as int].ty@,
            )) by {
                lemma_output_stays(types, i as int + 1, types.len() as int);
            }
            return Ok(&item_impl.types[i].ty);
        }
        i = i + 1;
    }
    Err(
        Diagnostic {
            span: CALL_SITE,
            message: "cannot find associate type `Output`".to_owned(),
        },
    )
}

/// Once an associated type named `Output` is found, it stays the one that
/// is found however many more types are looked at.
pub proof fn lemma_output_stays(types: Seq<ImplTypeView>, n: int, m: int)
    requires
        n <= m,
        output_upto(types, n) is Some,
    ensures
        output_upto(types, m) == output_upto(types, n),
    decreases m - n,
{
    if n < m {
        lemma_output_stays(types, n, m - 1);
    }
}

/// `ty`, behind a reference.
pub fn ref_type(ty: &str) -> (r: String)
    ensures
        r@ == with_ref_text(ty@, true),
{
    with_ref(ty, true)
}

/// `ty`, behind a reference where `is_ref` is set.
pub fn ref_type_with(ty: &str, is_ref: bool) -> (r: String)
    ensures
        r@ == with_ref_text(ty@, is_ref),
{
    with_ref(ty, is_ref)
}

/// The expression `expr` of the type written `ty`, turned from a reference
/// into a value by cloning, or from a value into a reference, as the two
/// flags ask.
pub open spec fn owned_text(
    expr: Seq<char>,
    ty: Seq<char>,
    input_ref: bool,
    output_ref: bool,
) -> Seq<
    char,
> {
    if input_ref && !output_ref {
        Seq::empty() + "<"@ + ty + " as ::core::clone::Clone>::clone("@ + expr + ")"@
    } else if !input_ref && output_ref {
        Seq::empty() + "&"@ + expr
    } else {
        Seq::empty() + expr
    }
}

/// Turns the expression `expr` from a reference into a value by cloning,
/// or from a value into a reference, as the two flags ask.
pub fn change_owned(expr: &str, ty: &str, input_ref: bool, output_ref: bool) -> (r: String)
    ensures
        r@ == owned_text(expr@, ty@, input_ref, output_ref),
{
    let mut s = String::new();
    if input_ref && !output_ref {
        s.append("<");
        s.append(ty);
        s.append(" as ::core::clone::Clone>::clone(");
        s.append(expr);
        s.append(")");
    } else if !input_ref && output_ref {
        s.append("&");
        s.append(expr);
    } else {
        s.append(expr);
    }
    s
}

/// The `where` clause of the generics `g`, as text.
pub open spec fn where_text(g: GenericsView) -> Seq<char> {
    if g.where_predicates.len() == 0 {
        Seq::empty()
    } else {
        put_predicates(
            Seq::empty() + "where "@,
            g.where_predicates,
            g.where_predicates.len() as int,
        )
    }
}

fn where_string(g: &Generics) -> (r: String)
    ensures
        r@ == where_text(g@),
{
    let mut out = String::new();
    if g.where_predicates.len() == 0 {
        return out;
    }
    out.append("where ");
    let ghost start = out@;
    let ghost preds = g@.where_predicates;
    let mut k: usize = 0;
    while k < g.where_predicates.len()
        invariant
            k <= g.where_predicates.len(),
            preds == g@.where_predicates,
            out@ == put_predicates(start, preds, k as int),
        decreases g.where_predicates.len() - k,
    {
        assert(preds[k as int] == g.where_predicates@[k as int]@);
        push_fragment(&mut out, &g.where_predicates[k]);
        out.append(", ");
        k = k + 1;
    }
    out
}

/// The pieces of text that the generated implementations are made of.
pub struct ImplTexts {
    /// The generic parameters, with `Self` written out.
    pub impl_g: Seq<char>,
    /// The `where` clause, with `Self` written out.
    pub where_g: Seq<char>,
    /// The type that the operator is implemented for, as written.
    pub this_orig: Seq<char>,
    /// That type without the reference, where it is a plain shared
    /// reference.
    pub this: Seq<char>,
    pub this_is_ref: bool,
    /// The type of the right side, as written.
    pub rhs_orig: Seq<char>,
    /// That type without the reference, where it is a plain shared
    /// reference.
    pub rhs: Seq<char>,
    pub rhs_is_ref: bool,
}

/// The pieces of text for the implementation `item` of the trait whose
/// path ends in `s`.
pub open spec fn impl_texts(item: ItemImplView, s: PathSegmentView) -> ImplTexts {
    let g = generics_self_expanded(item.generics, item.self_ty);
    let rhs_orig = rhs_of(s, item.self_ty);
    ImplTexts {
        impl_g: render(g.impl_generics.tokens),
        where_g: where_text(g),
        this_orig: render(item.self_ty.tokens),
        this: render(ref_elem(item.self_ty).0.tokens),
        this_is_ref: ref_elem(item.self_ty).1,
        rhs_orig: render(rhs_orig.tokens),
        rhs: render(ref_elem(rhs_orig).0.tokens),
        rhs_is_ref: ref_elem(rhs_orig).1,
    }
}

/// `acc` followed by the implementation of the binary operator `op` with
/// the sides taken as `impl_l_ref` and `impl_r_ref` say, made from the
/// implementation written by hand; by nothing where that is the
/// combination written by hand.
pub open spec fn put_impl_binary(
    acc: Seq<char>,
    t: ImplTexts,
    op: BinaryOp,
    output: Seq<char>,
    impl_l_ref: bool,
    impl_r_ref: bool,
) -> Seq<char> {
    let b = Op { op, form: OpForm::Binary };
    if impl_l_ref == t.this_is_ref && impl_r_ref == t.rhs_is_ref {
        acc
    } else {
        put_binary_from_binary(
            acc,
            t.impl_g,
            b.path(),
            with_ref_text(t.rhs, impl_r_ref),
            with_ref_text(t.this, impl_l_ref),
            t.where_g,
            output,
            b.func_name(),
            with_ref_text(t.this, t.this_is_ref),
            with_ref_text(t.rhs, t.rhs_is_ref),
            owned_text("self"@, t.this, impl_l_ref, t.this_is_ref),
            owned_text("rhs"@, t.rhs, impl_r_ref, t.rhs_is_ref),
        )
    }
}

/// `acc` followed by the implementation of the assigning form of `op` with
/// the right side of the type written `rhs`, made from the binary form for
/// the receiver taken as `call_l_ref` says.
pub open spec fn put_impl_assign(
    acc: Seq<char>,
    t: ImplTexts,
    op: BinaryOp,
    rhs: Seq<char>,
    call_l_ref: bool,
) -> Seq<char> {
    let b = Op { op, form: OpForm::Binary };
    let a = Op { op, form: OpForm::Assign };
    put_assign_from_binary(
        acc,
        t.impl_g,
        a.path(),
        rhs,
        t.this,
        t.where_g,
        a.func_name(),
        with_ref_text(t.this, call_l_ref),
        b.path(),
        b.func_name(),
        owned_text("self"@, t.this, true, call_l_ref),
    )
}

/// What is made of an implementation of the binary form of `op`: where
/// asked, the three other combinations of values and references; where
/// asked, the assigning form, for the right side by value and by reference
/// if the combinations are made, and for the right side as written if
/// not.
pub open spec fn from_binary(t: ImplTexts, op: BinaryOp, output: Seq<char>, args: ImplArgs) -> Seq<
    char,
> {
    let bs = if args.make_binary {
        put_impl_binary(
            put_impl_binary(
                put_impl_binary(
                    put_impl_binary(Seq::empty(), t, op, output, false, false),
                    t,
                    op,
                    output,
                    false,
                    true,
                ),
                t,
                op,
                output,
                true,
                false,
            ),
            t,
            op,
            output,
            true,
            true,
        )
    } else {
        Seq::empty()
    };
    if args.make_assign {
        if args.make_binary {
            put_impl_assign(
                put_impl_assign(bs, t, op, t.rhs, true),
                t,
                op,
                with_ref_text(t.rhs, true),
                true,
            )
        } else {
            put_impl_assign(bs, t, op, t.rhs_orig, t.this_is_ref)
        }
    } else {
        bs
    }
}

/// The complaint that the assigning form is asked of an implementation of
/// the assigning form.
pub open spec fn assign_source_message(op: BinaryOp) -> Seq<char> {
    "`#[derive_ex("@ + (Op { op, form: OpForm::Assign }).name()
        + ")]` can be used only with `impl "@ + (Op { op, form: OpForm::Binary }).name()
        + " for T`"@
}

/// What is made of an implementation of the assigning form of `op`: where
/// asked, the binary form, which assigns to its receiver and returns it.
/// The assigning form cannot be asked of it.
pub open spec fn from_assign(t: ImplTexts, op: BinaryOp, args: ImplArgs) -> Result<
    Seq<char>,
    DiagnosticView,
> {
    let b = Op { op, form: OpForm::Binary };
    let a = Op { op, form: OpForm::Assign };
    if args.make_assign {
        Err(DiagnosticView { span: CALL_SITE, message: assign_source_message(op) })
    } else if args.make_binary {
        Ok(
            put_binary_from_assign(
                Seq::empty(),
                t.impl_g,
                b.path(),
                t.rhs_orig,
                t.this_orig,
                t.where_g,
                b.func_name(),
                a.path(),
                a.func_name(),
            ),
        )
    } else {
        Ok(Seq::empty())
    }
}

/// The complaint about an implementation that is not of a trait.
pub open spec fn must_message() -> Seq<char> {
    "must be used with `impl {Trait} for {Type}`"@
}

/// What is made of the implementation `item`, as the arguments `attr` of
/// the annotation ask; or the fault. Where a dump is asked for, the code is
/// reported as a diagnostic that carries it.
pub open spec fn item_impl_expansion(attr: AttrArgsView, item: ItemImplView) -> Result<
    Seq<char>,
    DiagnosticView,
> {
    match item.trait_ {
        None => Err(DiagnosticView { span: CALL_SITE, message: must_message() }),
        Some(tr) => if tr.negative {
            Err(DiagnosticView { span: CALL_SITE, message: "cannot use with negative trait"@ })
        } else {
            match tr.last_segment {
                None => Err(DiagnosticView { span: CALL_SITE, message: must_message() }),
                Some(s) => match Op::of_ident(s.ident) {
                    Err(d) => Err(d),
                    Ok(op) => match impl_args_of(attr, op) {
                        Err(d) => Err(d),
                        Ok(args) => {
                            let t = impl_texts(item, s);
                            let code = match op.form {
                                OpForm::Binary => match output_type_of(item) {
                                    Err(d) => Err(d),
                                    Ok(output) => Ok(
                                        from_binary(
                                            t,
                                            op.op,
                                            render(
                                                fragment_self_expanded(
                                                    output,
                                                    item.self_ty,
                                                ).tokens,
                                            ),
                                            args,
                                        ),
                                    ),
                                },
                                OpForm::Assign => from_assign(t, op.op, args),
                            };
                            match code {
                                Err(d) => Err(d),
                                Ok(ts) => if args.dump {
                                    Err(
                                        DiagnosticView {
                                            span: CALL_SITE,
                                            message: "dump:\n"@ + ts,
                                        },
                                    )
                                } else {
                                    Ok(ts)
                                },
                            }
                        },
                    },
                },
            }
        },
    }
}

/// The pieces of text that the generated implementations are made of.
pub struct ImplStrings {
    pub impl_g: String,
    pub where_g: String,
    pub this_orig: String,
    pub this: String,
    pub this_is_ref: bool,
    pub rhs_orig: String,
    pub rhs: String,
    pub rhs_is_ref: bool,
}

impl View for ImplStrings {
    type V = ImplTexts;

    open spec fn view(&self) -> ImplTexts {
        ImplTexts {
            impl_g: self.impl_g@,
            where_g: self.where_g@,
            this_orig: self.this_orig@,
            this: self.this@,
            this_is_ref: self.this_is_ref,
            rhs_orig: self.rhs_orig@,
            rhs: self.rhs@,
            rhs_is_ref: self.rhs_is_ref,
        }
    }
}

fn impl_strings(item_impl: &ItemImpl, s: &PathSegment) -> (r: ImplStrings)
    ensures
        r@ == impl_texts(item_impl@, s@),
{
    let this_orig = &item_impl.self_ty;
    let (this, this_is_ref) = to_ref_elem(this_orig);
    let rhs_orig = to_rhs(s, this_orig);
    let (rhs, rhs_is_ref) = to_ref_elem(&rhs_orig);
    let g = expand_self_in_generics(&item_impl.generics, this_orig);
    ImplStrings {
        impl_g: render_tokens(&g.impl_generics.tokens),
        where_g: where_string(&g),
        this_orig: render_tokens(&this_orig.tokens),
        this: render_tokens(&this.tokens),
        this_is_ref,
        rhs_orig: render_tokens(&rhs_orig.tokens),
        rhs: render_tokens(&rhs.tokens),
        rhs_is_ref,
    }
}

fn impl_binary(
    out: &mut String,
    t: &ImplStrings,
    op: BinaryOp,
    output: &str,
    impl_l_ref: bool,
    impl_r_ref: bool,
)
    ensures
        final(out)@ == put_impl_binary(old(out)@, t@, op, output@, impl_l_ref, impl_r_ref),
{
    if impl_l_ref == t.this_is_ref && impl_r_ref == t.rhs_is_ref {
        return ;
    }
    let b = Op::new(op, OpForm::Binary);
    let path = b.to_trait_path();
    let func = b.to_func_ident();
    let impl_this = ref_type_with(t.this.as_str(), impl_l_ref);
    let impl_rhs = ref_type_with(t.rhs.as_str(), impl_r_ref);
    let l = ref_type_with(t.this.as_str(), t.this_is_ref);
    let r = ref_type_with(t.rhs.as_str(), t.rhs_is_ref);
    let l_expr = change_owned("self", t.this.as_str(), impl_l_ref, t.this_is_ref);
    let r_expr = change_owned("rhs", t.rhs.as_str(), impl_r_ref, t.rhs_is_ref);
    push_binary_from_binary(
        out,
        t.impl_g.as_str(),
        path.as_str(),
        impl_rhs.as_str(),
        impl_this.as_str(),
        t.where_g.as_str(),
        output,
        func.as_str(),
        l.as_str(),
        r.as_str(),
        l_expr.as_str(),
        r_expr.as_str(),
    );
}

fn impl_assign(out: &mut String, t: &ImplStrings, op: BinaryOp, rhs: &str, call_l_ref: bool)
    ensures
        final(out)@ == put_impl_assign(old(out)@, t@, op, rhs@, call_l_ref),
{
    let b = Op::new(op, OpForm::Binary);
    let a = Op::new(op, OpForm::Assign);
    let path = b.to_trait_path();
    let func = b.to_func_ident();
    let assign_path = a.to_trait_path();
    let assign_func = a.to_func_ident();
    let l = ref_type_with(t.this.as_str(), call_l_ref);
    let l_expr = change_owned("self", t.this.as_str(), true, call_l_ref);
    push_assign_from_binary(
        out,
        t.impl_g.as_str(),
        assign_path.as_str(),
        rhs,
        t.this.as_str(),
        t.where_g.as_str(),
        assign_func.as_str(),
        l.as_str(),
        path.as_str(),
        func.as_str(),
        l_expr.as_str(),
    );
}

fn build_from_binary(t: &ImplStrings, op: BinaryOp, output: &str, args: &ImplArgs) -> (r: String)
    ensures
        r@ == from_binary(t@, op, output@, *args),
{
    let mut ts = String::new();
    if args.make_binary {
        impl_binary(&mut ts, t, op, output, false, false);
        impl_binary(&mut ts, t, op, output, false, true);
        impl_binary(&mut ts, t, op, output, true, false);
        impl_binary(&mut ts, t, op, output, true, true);
    }
    if args.make_assign {
        if args.make_binary {
            impl_assign(&mut ts, t, op, t.rhs.as_str(), true);
            let r = ref_type(t.rhs.as_str());
            impl_assign(&mut ts, t, op, r.as_str(), true);
        } else {
            impl_assign(&mut ts, t, op, t.rhs_orig.as_str(), t.this_is_ref);
        }
    }
    ts
}

fn build_from_assign(t: &ImplStrings, op: BinaryOp, args: &ImplArgs) -> (r: Result<
    String,
    Diagnostic,
>)
    ensures
        crate::text::code_result_view(r) == from_assign(t@, op, *args),
{
    let b = Op::new(op, OpForm::Binary);
    let a = Op::new(op, OpForm::Assign);
    if args.make_assign {
        let mut message = "`#[derive_ex(".to_owned();
        let an = a.to_trait_ident();
        let bn = b.to_trait_ident();
        message.append(an.as_str());
        message.append(")]` can be used only with `impl ");
        message.append(bn.as_str());
        message.append(" for T`");
        return Err(Diagnostic { span: CALL_SITE, message });
    }
    let mut ts = String::new();
    if args.make_binary {
        let path = b.to_trait_path();
        let func = b.to_func_ident();
        let assign_path = a.to_trait_path();
        let assign_func = a.to_func_ident();
        push_binary_from_assign(
            &mut ts,
            t.impl_g.as_str(),
            path.as_str(),
            t.rhs_orig.as_str(),
            t.this_orig.as_str(),
            t.where_g.as_str(),
            func.as_str(),
            assign_path.as_str(),
            assign_func.as_str(),
        );
    }
    Ok(ts)
}

/// Makes what the arguments `attr` of the annotation ask of the
/// implementation `item_impl`.
pub fn build_by_item_impl(attr: &AttrArgs, item_impl: &ItemImpl) -> (r: Result<String, Diagnostic>)
    ensures
        crate::text::code_result_view(r) == item_impl_expansion(attr@, item_impl@),
{
    let t = match &item_impl.trait_ {
        Some(t) => t,
        None => {
            return Err(
                Diagnostic {
                    span: CALL_SITE,
                    message: "must be used with `impl {Trait} for {Type}`".to_owned(),
                },
            );
        },
    };
    if t.negative {
        return Err(
            Diagnostic { span: CALL_SITE, message: "cannot use with negative trait".to_owned() },
        );
    }
    let s = match &t.last_segment {
        Some(s) => s,
        None => {
            return Err(
                Diagnostic {
                    span: CALL_SITE,
                    message: "must be used with `impl {Trait} for {Type}`".to_owned(),
                },
            );
        },
    };
    let op = Op::from_ident(s.ident.as_str())?;
    let args = ImplArgs::from_attr_args(attr, op)?;
    let texts = impl_strings(item_impl, s);
    let ts = match op.form {
        OpForm::Binary => {
            let output = find_output_type(item_impl)?;
            let expanded = expand_self(output, &item_impl.self_ty);
            let output_text = render_tokens(&expanded.tokens);
            build_from_binary(&texts, op.op, output_text.as_str(), &args)
        },
        OpForm::Assign => build_from_assign(&texts, op.op, &args)?,
    };
    if args.dump {
        let mut message = "dump:\n".to_owned();
        message.append(ts.as_str());
        return Err(Diagnostic { span: CALL_SITE, message });
    }
    Ok(ts)
}

} // verus!
