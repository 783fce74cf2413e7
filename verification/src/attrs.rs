//! Annotations as they are attached to a type, a variant or a field: the
//! name of each, and its arguments read into plain values.

use vstd::prelude::*;
use crate::bound::{bound_args_view, Bound, BoundView};
use crate::text::{str_eq, Diagnostic, DiagnosticView, Fragment, FragmentView};

verus! {

/// An argument that is either written or not; where it is written, `span`
/// holds the place.
#[derive(Debug, Copy, Clone)]
pub struct Flag {
    pub span: Option<usize>,
}

impl Flag {
    /// Whether the flag is written.
    pub open spec fn is_set(self) -> bool {
        self.span is Some
    }

    /// The flag that is not written.
    pub fn none() -> (r: Self)
        ensures
            r.span is None,
    {
        Flag { span: None }
    }

    /// Whether the flag is written.
    pub fn value(&self) -> (r: bool)
        ensures
            r == self.is_set(),
    {
        self.span.is_some()
    }
}

/// The value of an optional fragment.
pub open spec fn opt_fragment_view(f: Option<Fragment>) -> Option<FragmentView> {
    match f {
        Some(f) => Some(f@),
        None => None,
    }
}

/// The arguments of `#[ord(...)]`, `#[partial_ord(...)]`, `#[eq(...)]`,
/// `#[partial_eq(...)]` and `#[hash(...)]`.
pub struct ArgsForCompareOp {
    /// `skip`, also written `ignore`.
    pub ignore: Flag,
    pub reverse: Flag,
    /// The expression after `by =`.
    pub by: Option<Fragment>,
    /// The expression after `key =`, with the placeholder for the field's
    /// value in it.
    pub key: Option<Fragment>,
    pub bound: Option<Vec<Bound>>,
}

/// The mathematical value of [`ArgsForCompareOp`].
pub struct ArgsForCompareOpView {
    pub ignore: Flag,
    pub reverse: Flag,
    pub by: Option<FragmentView>,
    pub key: Option<FragmentView>,
    pub bound: Option<Seq<BoundView>>,
}

impl View for ArgsForCompareOp {
    type V = ArgsForCompareOpView;

    open spec fn view(&self) -> ArgsForCompareOpView {
        ArgsForCompareOpView {
            ignore: self.ignore,
            reverse: self.reverse,
            by: opt_fragment_view(self.by),
            key: opt_fragment_view(self.key),
            bound: bound_args_view(self.bound),
        }
    }
}

/// The arguments of `#[debug(...)]`.
pub struct ArgsForDebug {
    pub transparent: Flag,
    /// `skip`, also written `ignore`.
    pub ignore: Flag,
    pub bound: Option<Vec<Bound>>,
}

/// The mathematical value of [`ArgsForDebug`].
pub struct ArgsForDebugView {
    pub transparent: Flag,
    pub ignore: Flag,
    pub bound: Option<Seq<BoundView>>,
}

impl View for ArgsForDebug {
    type V = ArgsForDebugView;

    open spec fn view(&self) -> ArgsForDebugView {
        ArgsForDebugView {
            transparent: self.transparent,
            ignore: self.ignore,
            bound: bound_args_view(self.bound),
        }
    }
}

/// The syntactic form of an expression, as far as the generator tells
/// forms apart.
#[derive(Debug, Copy, Clone, Eq, PartialEq, Structural)]
pub enum ExprShape {
    /// A string literal.
    StrLit,
    /// A path.
    Path,
    /// Anything else.
    Other,
}

/// The arguments of `#[default(...)]`.
pub struct ArgsForDefault {
    /// The expression for the default value; `_` where none is given.
    pub value: Fragment,
    /// The form of `value`.
    pub shape: ExprShape,
    pub bound: Option<Vec<Bound>>,
}

/// The mathematical value of [`ArgsForDefault`].
pub struct ArgsForDefaultView {
    pub value: FragmentView,
    pub shape: ExprShape,
    pub bound: Option<Seq<BoundView>>,
}

impl View for ArgsForDefault {
    type V = ArgsForDefaultView;

    open spec fn view(&self) -> ArgsForDefaultView {
        ArgsForDefaultView {
            value: self.value@,
            shape: self.shape,
            bound: bound_args_view(self.bound),
        }
    }
}

/// The arguments of one trait in `#[derive_ex(Trait(...))]`.
pub struct DeriveItemArgs {
    pub bound: Option<Vec<Bound>>,
    pub dump: bool,
}

/// The mathematical value of [`DeriveItemArgs`].
pub struct DeriveItemArgsView {
    pub bound: Option<Seq<BoundView>>,
    pub dump: bool,
}

impl View for DeriveItemArgs {
    type V = DeriveItemArgsView;

    open spec fn view(&self) -> DeriveItemArgsView {
        DeriveItemArgsView { bound: bound_args_view(self.bound), dump: self.dump }
    }
}

/// One trait named in `#[derive_ex(...)]`.
pub struct DeriveItem {
    pub trait_ident: String,
    /// Where the trait's name is written.
    pub span: usize,
    /// The arguments in parentheses after the name, if any.
    pub args: Option<DeriveItemArgs>,
}

/// The mathematical value of a [`DeriveItem`].
pub struct DeriveItemView {
    pub trait_ident: Seq<char>,
    pub span: usize,
    pub args: Option<DeriveItemArgsView>,
}

impl View for DeriveItem {
    type V = DeriveItemView;

    open spec fn view(&self) -> DeriveItemView {
        DeriveItemView {
            trait_ident: self.trait_ident@,
            span: self.span,
            args: match self.args {
                Some(a) => Some(a@),
                None => None,
            },
        }
    }
}

/// The arguments of `#[derive_ex(...)]`.
pub struct Args {
    /// The traits, in the order written.
    pub items: Vec<DeriveItem>,
    /// The `bound(...)` that is common to the traits.
    pub bound: Option<Vec<Bound>>,
    pub dump: bool,
}

/// The mathematical value of [`Args`].
pub struct ArgsView {
    pub items: Seq<DeriveItemView>,
    pub bound: Option<Seq<BoundView>>,
    pub dump: bool,
}

impl View for Args {
    type V = ArgsView;

    open spec fn view(&self) -> ArgsView {
        ArgsView {
            items: self.items@.map_values(|i: DeriveItem| i@),
            bound: bound_args_view(self.bound),
            dump: self.dump,
        }
    }
}

/// The arguments in the parentheses of an annotation, read according to
/// the annotation's name.
pub enum AttrArgs {
    Derive(Args),
    Compare(ArgsForCompareOp),
    Debug(ArgsForDebug),
    Default(ArgsForDefault),
    /// Arguments that could not be read, with the complaint.
    Invalid(Diagnostic),
}

/// The mathematical value of [`AttrArgs`].
pub enum AttrArgsView {
    Derive(ArgsView),
    Compare(ArgsForCompareOpView),
    Debug(ArgsForDebugView),
    Default(ArgsForDefaultView),
    Invalid(DiagnosticView),
}

impl View for AttrArgs {
    type V = AttrArgsView;

    open spec fn view(&self) -> AttrArgsView {
        match self {
            AttrArgs::Derive(a) => AttrArgsView::Derive(a@),
            AttrArgs::Compare(a) => AttrArgsView::Compare(a@),
            AttrArgs::Debug(a) => AttrArgsView::Debug(a@),
            AttrArgs::Default(a) => AttrArgsView::Default(a@),
            AttrArgs::Invalid(d) => AttrArgsView::Invalid(d@),
        }
    }
}

/// What follows the name of an annotation.
pub enum Meta {
    /// Nothing: `#[name]`.
    Path,
    /// Arguments in parentheses: `#[name(...)]`.
    List(AttrArgs),
    /// A value: `#[name = value]`.
    NameValue,
}

/// The mathematical value of [`Meta`].
pub enum MetaView {
    Path,
    List(AttrArgsView),
    NameValue,
}

impl View for Meta {
    type V = MetaView;

    open spec fn view(&self) -> MetaView {
        match self {
            Meta::Path => MetaView::Path,
            Meta::List(a) => MetaView::List(a@),
            Meta::NameValue => MetaView::NameValue,
        }
    }
}

/// One annotation.
pub struct Attribute {
    /// The name, where the annotation's path is a single identifier.
    pub ident: Option<String>,
    /// Where the annotation is written.
    pub span: usize,
    pub meta: Meta,
}

/// The mathematical value of an [`Attribute`].
pub struct AttributeView {
    pub ident: Option<Seq<char>>,
    pub span: usize,
    pub meta: MetaView,
}

impl View for Attribute {
    type V = AttributeView;

    open spec fn view(&self) -> AttributeView {
        AttributeView {
            ident: match self.ident {
                Some(s) => Some(s@),
                None => None,
            },
            span: self.span,
            meta: self.meta@,
        }
    }
}

/// The values of a list of annotations.
pub open spec fn attrs_view(attrs: Seq<Attribute>) -> Seq<AttributeView> {
    attrs.map_values(|a: Attribute| a@)
}

impl Attribute {
    /// Whether the annotation is named `name`.
    pub fn is_ident(&self, name: &str) -> (r: bool)
        ensures
            r == (self@.ident == Some(name@)),
    {
        match &self.ident {
            Some(s) => str_eq(s.as_str(), name),
            None => false,
        }
    }
}

/// The complaint that `#[name]` is written twice.
pub open spec fn twice_message(name: Seq<char>) -> Seq<char> {
    "#["@ + name + "] was specified twice"@
}

/// The complaint that `#[name = value]` is not a form that is read.
pub open spec fn name_value_message(name: Seq<char>) -> Seq<char> {
    "`name = value` style attribute is not supported for `#["@ + name + "]"@
}

/// What reading `attrs` from position `i` on gives, where `found` is the
/// position of the annotation named `name` read so far: the position of the
/// one annotation of that name, or `None` where there is none.
///
/// The annotations are read in order, and the first fault ends the
/// reading: a second annotation of that name, arguments that could not be
/// read, or the form `#[name = value]`.
pub open spec fn single_from(
    attrs: Seq<AttributeView>,
    name: Seq<char>,
    i: int,
    found: Option<int>,
) -> Result<Option<int>, DiagnosticView>
    decreases attrs.len() - i,
{
    if i < 0 || i >= attrs.len() {
        Ok(found)
    } else {
        let a = attrs[i];
        if a.ident == Some(name) {
            if found is Some {
                Err(DiagnosticView { span: a.span, message: twice_message(name) })
            } else {
                match a.meta {
                    MetaView::Path => single_from(attrs, name, i + 1, Some(i)),
                    MetaView::List(AttrArgsView::Invalid(d)) => Err(d),
                    MetaView::List(_) => single_from(attrs, name, i + 1, Some(i)),
                    MetaView::NameValue => Err(
                        DiagnosticView { span: a.span, message: name_value_message(name) },
                    ),
                }
            }
        } else {
            single_from(attrs, name, i + 1, found)
        }
    }
}

/// The position of the one annotation named `name` in `attrs`.
pub open spec fn single(attrs: Seq<AttributeView>, name: Seq<char>) -> Result<
    Option<int>,
    DiagnosticView,
> {
    single_from(attrs, name, 0, None)
}

/// A copy of a diagnostic.
pub fn clone_diagnostic(d: &Diagnostic) -> (r: Diagnostic)
    ensures
        r@ == d@,
{
    Diagnostic { span: d.span, message: d.message.clone() }
}

/// Finds the one annotation named `name` in `attrs`.
pub fn parse_single(attrs: &Vec<Attribute>, name: &str) -> (r: Result<Option<usize>, Diagnostic>)
    ensures
        match r {
            Ok(Some(i)) => single(attrs_view(attrs@), name@) == Ok::<
                Option<int>,
                DiagnosticView,
            >(Some(i as int)) && i < attrs.len(),
            Ok(None) => single(attrs_view(attrs@), name@) == Ok::<Option<int>, DiagnosticView>(
                None,
            ),
            Err(d) => single(attrs_view(attrs@), name@) == Err::<Option<int>, DiagnosticView>(
                d@,
            ),
        },
{
    let ghost all = attrs_view(attrs@);
    let mut item: Option<usize> = None;
    let mut i: usize = 0;
    while i < attrs.len()
        invariant
            i <= attrs.len(),
            all == attrs_view(attrs@),
            single(all, name@) == single_from(
                all,
                name@,
                i as int,
                match item {
                    Some(k) => Some(k as int),
                    None => None,
                },
            ),
            item matches Some(k) ==> k < attrs.len(),
        decreases attrs.len() - i,
    {
        let attr = &attrs[i];
        assert(all[i as int] == attr@);
        if attr.is_ident(name) {
            if item.is_some() {
                let mut message = "#[".to_owned();
                message.append(name);
                message.append("] was specified twice");
                return Err(Diagnostic { span: attr.span, message });
            }
            match &attr.meta {
                Meta::Path => {
                    item = Some(i);
                },
                Meta::List(AttrArgs::Invalid(d)) => {
                    return Err(clone_diagnostic(d));
                },
                Meta::List(_) => {
                    item = Some(i);
                },
                Meta::NameValue => {
                    let mut message =
                        "`name = value` style attribute is not supported for `#[".to_owned();
                    message.append(name);
                    message.append("]");
                    return Err(Diagnostic { span: attr.span, message });
                },
            }
        }
        i = i + 1;
    }
    Ok(item)
}

} // verus!
