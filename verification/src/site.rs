//! Everything that the annotations at one site say: the requests made
//! there, the helper attributes, and the bound sites they give each trait.

use vstd::prelude::*;
use crate::attrs::{
    attrs_view, parse_single, single, Args, AttrArgs, AttrArgsView, Attribute, AttributeView,
    ExprShape, Flag, Meta, MetaView,
};
use crate::bound::{bounds_of, inherit, sites_view, Bounds, BoundsView};
use crate::hattrs::{
    compare_attrs_fault, compare_attrs_of, CompareAttrsView, HelperAttribtuesForCompareOp,
    HelperAttributeKinds,
};
use crate::helper::{
    entries_of_attrs, entries_view, entry_for, find_entry, parse_derive_ex_attrs,
    unexpected_arguments_message, AttributeTarget, DeriveEntry, DeriveEntryView,
};
use crate::kinds::{CompareOp, DeriveItemKind};
use crate::text::{
    clone_fragment, push_fragment, render, str_eq, Diagnostic, DiagnosticView, Fragment,
    FragmentView,
};

verus! {

/// The helper attribute `#[debug(...)]` at one site.
pub struct HelperAttributeForDebug {
    pub transparent: Flag,
    pub ignore: Flag,
    pub bounds: Bounds,
}

/// The mathematical value of a [`HelperAttributeForDebug`].
pub struct HelperAttributeForDebugView {
    pub transparent: Flag,
    pub ignore: Flag,
    pub bounds: BoundsView,
}

impl View for HelperAttributeForDebug {
    type V = HelperAttributeForDebugView;

    open spec fn view(&self) -> HelperAttributeForDebugView {
        HelperAttributeForDebugView {
            transparent: self.transparent,
            ignore: self.ignore,
            bounds: self.bounds@,
        }
    }
}

/// `#[debug]` where it is not written.
pub open spec fn no_debug_attr() -> HelperAttributeForDebugView {
    HelperAttributeForDebugView {
        transparent: Flag { span: None },
        ignore: Flag { span: None },
        bounds: inherit(),
    }
}

/// The helper attribute `#[debug(...)]` among `attrs`.
pub open spec fn debug_attr_of(attrs: Seq<AttributeView>) -> Result<
    HelperAttributeForDebugView,
    DiagnosticView,
> {
    match single(attrs, "debug"@) {
        Err(d) => Err(d),
        Ok(None) => Ok(no_debug_attr()),
        Ok(Some(i)) => match attrs[i].meta {
            MetaView::Path => Ok(no_debug_attr()),
            MetaView::List(AttrArgsView::Debug(a)) => Ok(
                HelperAttributeForDebugView {
                    transparent: a.transparent,
                    ignore: a.ignore,
                    bounds: bounds_of(a.bound),
                },
            ),
            _ => Err(
                DiagnosticView {
                    span: attrs[i].span,
                    message: unexpected_arguments_message("debug"@),
                },
            ),
        },
    }
}

/// The helper attribute `#[default(...)]` at one site.
pub struct HelperAttributeForDefault {
    /// The expression for the default value, if one is given.
    pub value: Option<Fragment>,
    /// The form of `value`.
    pub shape: ExprShape,
    pub bounds: Bounds,
}

/// The mathematical value of a [`HelperAttributeForDefault`].
pub struct HelperAttributeForDefaultView {
    pub value: Option<FragmentView>,
    pub shape: ExprShape,
    pub bounds: BoundsView,
}

impl View for HelperAttributeForDefault {
    type V = HelperAttributeForDefaultView;

    open spec fn view(&self) -> HelperAttributeForDefaultView {
        HelperAttributeForDefaultView {
            value: match self.value {
                Some(f) => Some(f@),
                None => None,
            },
            shape: self.shape,
            bounds: self.bounds@,
        }
    }
}

/// Whether `f` is the expression `_`, which stands for "no value given".
pub open spec fn is_underscore(f: FragmentView) -> bool {
    f.tokens.len() == 1 && f.tokens[0].text == "_"@
}

/// The helper attribute `#[default(...)]` among `attrs`, or `None` where
/// it is not written.
pub open spec fn default_attr_of(attrs: Seq<AttributeView>) -> Result<
    Option<HelperAttributeForDefaultView>,
    DiagnosticView,
> {
    match single(attrs, "default"@) {
        Err(d) => Err(d),
        Ok(None) => Ok(None),
        Ok(Some(i)) => match attrs[i].meta {
            MetaView::Path => Ok(
                Some(
                    HelperAttributeForDefaultView {
                        value: None,
                        shape: ExprShape::Other,
                        bounds: inherit(),
                    },
                ),
            ),
            MetaView::List(AttrArgsView::Default(a)) => Ok(
                Some(
                    HelperAttributeForDefaultView {
                        value: if is_underscore(a.value) {
                            None
                        } else {
                            Some(a.value)
                        },
                        shape: a.shape,
                        bounds: bounds_of(a.bound),
                    },
                ),
            ),
            _ => Err(
                DiagnosticView {
                    span: attrs[i].span,
                    message: unexpected_arguments_message("default"@),
                },
            ),
        },
    }
}

/// `acc` followed by the default value that `a` gives a place of the type
/// written `ty`: the expression as it is, or, where it is a string literal
/// or a path, its conversion into the type.
pub open spec fn put_default_value(
    acc: Seq<char>,
    value: FragmentView,
    shape: ExprShape,
    ty: Seq<char>,
) -> Seq<char> {
    if shape == ExprShape::StrLit || shape == ExprShape::Path {
        acc + "::core::convert::Into::<"@ + ty + ">::into("@ + render(value.tokens) + ")"@
    } else {
        acc + render(value.tokens)
    }
}

fn unexpected_arguments(span: usize, name: &str) -> (r: Diagnostic)
    ensures
        r@ == (DiagnosticView { span, message: unexpected_arguments_message(name@) }),
{
    let mut message = "unexpected arguments for `#[".to_owned();
    message.append(name);
    message.append("]`");
    Diagnostic { span, message }
}

impl HelperAttributeForDebug {
    /// `#[debug]` where it is not written.
    pub fn none() -> (r: Self)
        ensures
            r@ == no_debug_attr(),
    {
        HelperAttributeForDebug {
            transparent: Flag { span: None },
            ignore: Flag { span: None },
            bounds: Bounds::new(),
        }
    }

    /// Reads the helper attribute `#[debug(...)]`.
    pub fn from_attrs(attrs: &Vec<Attribute>) -> (r: Result<Self, Diagnostic>)
        ensures
            match r {
                Ok(a) => debug_attr_of(attrs_view(attrs@)) == Ok::<
                    HelperAttributeForDebugView,
                    DiagnosticView,
                >(a@),
                Err(d) => debug_attr_of(attrs_view(attrs@)) == Err::<
                    HelperAttributeForDebugView,
                    DiagnosticView,
                >(d@),
            },
    {
        match parse_single(attrs, "debug") {
            Err(d) => Err(d),
            Ok(None) => Ok(Self::none()),
            Ok(Some(i)) => {
                assert(attrs_view(attrs@)[i as int] == attrs@[i as int]@);
                match &attrs[i].meta {
                    Meta::Path => Ok(Self::none()),
                    Meta::List(AttrArgs::Debug(a)) => Ok(
                        HelperAttributeForDebug {
                            transparent: a.transparent,
                            ignore: a.ignore,
                            bounds: Bounds::from(&a.bound),
                        },
                    ),
                    _ => Err(unexpected_arguments(attrs[i].span, "debug")),
                }
            },
        }
    }
}

impl HelperAttributeForDefault {
    /// Reads the helper attribute `#[default(...)]`.
    pub fn from_attrs(attrs: &Vec<Attribute>) -> (r: Result<Option<Self>, Diagnostic>)
        ensures
            match r {
                Ok(Some(a)) => default_attr_of(attrs_view(attrs@)) == Ok::<
                    Option<HelperAttributeForDefaultView>,
                    DiagnosticView,
                >(Some(a@)),
                Ok(None) => default_attr_of(attrs_view(attrs@)) == Ok::<
                    Option<HelperAttributeForDefaultView>,
                    DiagnosticView,
                >(None),
                Err(d) => default_attr_of(attrs_view(attrs@)) == Err::<
                    Option<HelperAttributeForDefaultView>,
                    DiagnosticView,
                >(d@),
            },
    {
        match parse_single(attrs, "default") {
            Err(d) => Err(d),
            Ok(None) => Ok(None),
            Ok(Some(i)) => {
                assert(attrs_view(attrs@)[i as int] == attrs@[i as int]@);
                match &attrs[i].meta {
                    Meta::Path => Ok(
                        Some(
                            HelperAttributeForDefault {
                                value: None,
                                shape: ExprShape::Other,
                                bounds: Bounds::new(),
                            },
                        ),
                    ),
                    Meta::List(AttrArgs::Default(a)) => {
                        let none = a.value.tokens.len() == 1 && str_eq(
                            a.value.tokens[0].text.as_str(),
                            "_",
                        );
                        assert(a@.value.tokens.len() == a.value.tokens@.len());
                        assert(a.value.tokens@.len() == 1 ==> a@.value.tokens[0]
                            == a.value.tokens@[0]@);
                        let value = if none {
                            None
                        } else {
                            Some(clone_fragment(&a.value))
                        };
                        Ok(
                            Some(
                                HelperAttributeForDefault {
                                    value,
                                    shape: a.shape,
                                    bounds: Bounds::from(&a.bound),
                                },
                            ),
                        )
                    },
                    _ => Err(unexpected_arguments(attrs[i].span, "default")),
                }
            },
        }
    }

    /// Appends to `out` the default value for a place of the type written
    /// `ty`, and tells whether there is one.
    pub fn value(&self, out: &mut String, ty: &str) -> (r: bool)
        ensures
            r == (self@.value is Some),
            match self@.value {
                Some(v) => final(out)@ == put_default_value(old(out)@, v, self@.shape, ty@),
                None => final(out)@ == old(out)@,
            },
    {
        match &self.value {
            Some(e) => {
                let need_into = match self.shape {
                    ExprShape::StrLit => true,
                    ExprShape::Path => true,
                    ExprShape::Other => false,
                };
                if need_into {
                    out.append("::core::convert::Into::<");
                    out.append(ty);
                    out.append(">::into(");
                    push_fragment(out, e);
                    out.append(")");
                } else {
                    push_fragment(out, e);
                }
                true
            },
            None => false,
        }
    }
}

/// Everything that the annotations at one site say.
pub struct HelperAttributes {
    /// The requests made at the site with `#[derive_ex(...)]`.
    pub items: Vec<DeriveEntry>,
    pub default: Option<HelperAttributeForDefault>,
    pub debug: HelperAttributeForDebug,
    pub compare: HelperAttribtuesForCompareOp,
}

/// The mathematical value of [`HelperAttributes`].
pub struct HelperAttributesView {
    pub items: Seq<DeriveEntryView>,
    pub default: Option<HelperAttributeForDefaultView>,
    pub debug: HelperAttributeForDebugView,
    pub compare: CompareAttrsView,
}

impl View for HelperAttributes {
    type V = HelperAttributesView;

    open spec fn view(&self) -> HelperAttributesView {
        HelperAttributesView {
            items: entries_view(self.items@),
            default: match self.default {
                Some(a) => Some(a@),
                None => None,
            },
            debug: self.debug@,
            compare: self.compare@,
        }
    }
}

/// What the annotations `attrs`, attached to `target`, say, as far as
/// `kinds` has them read.
///
/// The parts are read in the order: requests, `#[default]`, `#[debug]`,
/// the comparison family; then the comparison family is checked against
/// `target`. The first fault ends the reading.
pub open spec fn helper_attributes_of(
    attrs: Seq<AttributeView>,
    target: AttributeTarget,
    kinds: HelperAttributeKinds,
) -> Result<HelperAttributesView, DiagnosticView> {
    match (if kinds.derive_ex {
        entries_of_attrs(attrs)
    } else {
        Ok(Seq::empty())
    }) {
        Err(d) => Err(d),
        Ok(items) => match (if kinds.default {
            default_attr_of(attrs)
        } else {
            Ok(None)
        }) {
            Err(d) => Err(d),
            Ok(default) => match (if kinds.debug {
                debug_attr_of(attrs)
            } else {
                Ok(no_debug_attr())
            }) {
                Err(d) => Err(d),
                Ok(debug) => match compare_attrs_of(attrs, kinds) {
                    Err(d) => Err(d),
                    Ok(compare) => match compare_attrs_fault(compare, target) {
                        Some(d) => Err(d),
                        None => Ok(HelperAttributesView { items, default, debug, compare }),
                    },
                },
            },
        },
    }
}

/// The helper attributes that reach the comparison trait `op`, from the
/// one of `op` itself to the most general.
pub open spec fn chain(op: CompareOp) -> Seq<CompareOp> {
    match op {
        CompareOp::Ord => seq![CompareOp::Ord],
        CompareOp::PartialOrd => seq![CompareOp::PartialOrd, CompareOp::Ord],
        CompareOp::Eq => seq![CompareOp::Eq, CompareOp::Ord],
        CompareOp::PartialEq => seq![
            CompareOp::PartialEq,
            CompareOp::Eq,
            CompareOp::PartialOrd,
            CompareOp::Ord,
        ],
        CompareOp::Hash => seq![CompareOp::Hash, CompareOp::Eq, CompareOp::Ord],
    }
}

/// `acc` followed by the bound sites of the first `n` helper attributes of
/// `links`.
pub open spec fn with_compare_sites(
    acc: Seq<BoundsView>,
    c: CompareAttrsView,
    links: Seq<CompareOp>,
    n: int,
) -> Seq<BoundsView>
    decreases n,
{
    if n <= 0 {
        acc
    } else {
        with_compare_sites(acc, c, links, n - 1).push(c.get(links[n - 1]).bounds)
    }
}

/// `acc` followed by the bound sites that the helper attributes of the
/// trait `kind` give at a site.
pub open spec fn with_helper_sites(
    acc: Seq<BoundsView>,
    h: HelperAttributesView,
    kind: DeriveItemKind,
) -> Seq<BoundsView> {
    match kind {
        DeriveItemKind::CompareOp(op) => with_compare_sites(
            acc,
            h.compare,
            chain(op),
            chain(op).len() as int,
        ),
        DeriveItemKind::Debug => acc.push(h.debug.bounds),
        DeriveItemKind::Default => match h.default {
            Some(a) => acc.push(a.bounds),
            None => acc,
        },
        _ => acc,
    }
}

/// `acc` followed by the bound sites that the request for `kind` among
/// `items` gives: the trait's own `bound(...)`, then the common one.
pub open spec fn with_item_sites(
    acc: Seq<BoundsView>,
    items: Seq<DeriveEntryView>,
    kind: DeriveItemKind,
) -> Seq<BoundsView> {
    match entry_for(items, kind) {
        Some(i) => acc.push(items[i].bounds_this).push(items[i].bounds_common),
        None => acc,
    }
}

/// `acc` followed by all bound sites of the trait `kind` at a site, from
/// the highest priority down: the helper attributes, the trait's own
/// `bound(...)`, the common one.
pub open spec fn with_level_sites(
    acc: Seq<BoundsView>,
    h: HelperAttributesView,
    kind: DeriveItemKind,
) -> Seq<BoundsView> {
    with_item_sites(with_helper_sites(acc, h, kind), h.items, kind)
}

/// The helper attributes that reach the comparison trait `op`, from the one
/// of `op` itself to the most general.
pub fn chain_of(op: CompareOp) -> (r: Vec<CompareOp>)
    ensures
        r@ == chain(op),
{
    let mut r: Vec<CompareOp> = Vec::new();
    match op {
        CompareOp::Ord => {
            r.push(CompareOp::Ord);
        },
        CompareOp::PartialOrd => {
            r.push(CompareOp::PartialOrd);
            r.push(CompareOp::Ord);
        },
        CompareOp::Eq => {
            r.push(CompareOp::Eq);
            r.push(CompareOp::Ord);
        },
        CompareOp::PartialEq => {
            r.push(CompareOp::PartialEq);
            r.push(CompareOp::Eq);
            r.push(CompareOp::PartialOrd);
            r.push(CompareOp::Ord);
        },
        CompareOp::Hash => {
            r.push(CompareOp::Hash);
            r.push(CompareOp::Eq);
            r.push(CompareOp::Ord);
        },
    }
    assert(r@ =~= chain(op));
    r
}

impl HelperAttributes {
    /// Reads what the annotations `attrs`, attached to `target`, say.
    pub fn from_attrs(
        attrs: &Vec<Attribute>,
        target: AttributeTarget,
        kinds: &HelperAttributeKinds,
    ) -> (r: Result<Self, Diagnostic>)
        ensures
            match r {
                Ok(h) => helper_attributes_of(attrs_view(attrs@), target, *kinds) == Ok::<
                    HelperAttributesView,
                    DiagnosticView,
                >(h@),
                Err(d) => helper_attributes_of(attrs_view(attrs@), target, *kinds) == Err::<
                    HelperAttributesView,
                    DiagnosticView,
                >(d@),
            },
    {
        let items = if kinds.derive_ex {
            let mut list: Vec<&Args> = Vec::new();
            assert(crate::helper::args_list_view(list@) =~= Seq::empty());
            parse_derive_ex_attrs(&mut list, attrs)?;
            DeriveEntry::from_args_list(&list)?
        } else {
            let v: Vec<DeriveEntry> = Vec::new();
            assert(entries_view(v@) =~= Seq::empty());
            v
        };
        let default = if kinds.default {
            HelperAttributeForDefault::from_attrs(attrs)?
        } else {
            None
        };
        let debug = if kinds.debug {
            HelperAttributeForDebug::from_attrs(attrs)?
        } else {
            HelperAttributeForDebug::none()
        };
        let compare = HelperAttribtuesForCompareOp::from_attrs(attrs, kinds)?;
        let this = HelperAttributes { items, default, debug, compare };
        this.verify(target)?;
        Ok(this)
    }

    /// Checks that the helper attributes hold nothing that `target` cannot
    /// take.
    pub fn verify(&self, target: AttributeTarget) -> (r: Result<(), Diagnostic>)
        ensures
            match r {
                Ok(()) => compare_attrs_fault(self@.compare, target) is None,
                Err(d) => compare_attrs_fault(self@.compare, target) == Some(d@),
            },
    {
        self.compare.verify(target)
    }

    /// Whether the field is left out of the `Debug` output.
    pub fn is_debug_ignore(&self) -> (r: bool)
        ensures
            r == self@.debug.ignore.is_set(),
    {
        self.debug.ignore.value()
    }

    /// Appends the bound sites of the trait `kind` at this site to `sites`,
    /// from the highest priority down.
    pub fn push_sites<'a>(&'a self, kind: DeriveItemKind, sites: &mut Vec<&'a Bounds>)
        ensures
            sites_view(final(sites)@) == with_level_sites(sites_view(old(sites)@), self@, kind),
    {
        let ghost start = sites_view(sites@);
        match kind {
            DeriveItemKind::CompareOp(op) => {
                let links = chain_of(op);
                let mut i: usize = 0;
                while i < links.len()
                    invariant
                        i <= links.len(),
                        links@ == chain(op),
                        sites_view(sites@) == with_compare_sites(
                            start,
                            self@.compare,
                            links@,
                            i as int,
                        ),
                    decreases links.len() - i,
                {
                    let ghost before = sites_view(sites@);
                    let a = self.compare.get(links[i]);
                    sites.push(&a.bounds);
                    assert(sites_view(sites@) =~= before.push(a.bounds@));
                    i = i + 1;
                }
            },
            DeriveItemKind::Debug => {
                sites.push(&self.debug.bounds);
                assert(sites_view(sites@) =~= start.push(self.debug.bounds@));
            },
            DeriveItemKind::Default => {
                if let Some(a) = &self.default {
                    sites.push(&a.bounds);
                    assert(sites_view(sites@) =~= start.push(a.bounds@));
                }
            },
            _ => {},
        }
        self.push_item_sites(kind, sites);
    }

    /// Appends the bound sites of the request for `kind` made at this site
    /// to `sites`.
    pub fn push_item_sites<'a>(&'a self, kind: DeriveItemKind, sites: &mut Vec<&'a Bounds>)
        ensures
            sites_view(final(sites)@) == with_item_sites(
                sites_view(old(sites)@),
                self@.items,
                kind,
            ),
    {
        let ghost start = sites_view(sites@);
        if let Some(i) = find_entry(&self.items, kind) {
            assert(self@.items[i as int] == self.items@[i as int]@);
            let e = &self.items[i];
            sites.push(&e.bounds_this);
            sites.push(&e.bounds_common);
            assert(sites_view(sites@) =~= start.push(e.bounds_this@).push(e.bounds_common@));
        }
    }
}

} // verus!
