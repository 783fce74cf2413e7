//! The helper attributes of one site, resolved for every trait.

use vstd::prelude::*;
use crate::attrs::{
    attrs_view, opt_fragment_view, parse_single, single, ArgsForCompareOpView, AttrArgs,
    AttrArgsView, Attribute, AttributeView, Flag, Meta, MetaView,
};
use crate::bound::{bounds_of, inherit, Bounds, BoundsView};
use crate::helper::{
    entries_view, unexpected_arguments_message, AttributeTarget, DeriveEntry, DeriveEntryView,
};
use crate::kinds::{CompareOp, DeriveItemKind};
use crate::text::{clone_fragment, str_eq, Diagnostic, DiagnosticView, Fragment, FragmentView};

verus! {

/// Which helper attributes are read at a site, and later removed from the
/// item: those of the traits that are requested.
#[derive(Debug, Copy, Clone)]
pub struct HelperAttributeKinds {
    pub derive_ex: bool,
    pub default: bool,
    pub debug: bool,
    pub ord: bool,
    pub partial_ord: bool,
    pub eq: bool,
    pub partial_eq: bool,
    pub hash: bool,
}

impl HelperAttributeKinds {
    /// No helper attribute, and `#[derive_ex]` as `derive_ex` says.
    pub open spec fn initial(derive_ex: bool) -> Self {
        HelperAttributeKinds {
            derive_ex,
            default: false,
            debug: false,
            ord: false,
            partial_ord: false,
            eq: false,
            partial_eq: false,
            hash: false,
        }
    }

    /// `self`, with the helper attribute of the trait `kind` read as well.
    pub open spec fn with_kind(self, kind: DeriveItemKind) -> Self {
        match kind {
            DeriveItemKind::Default => HelperAttributeKinds { default: true, ..self },
            DeriveItemKind::Debug => HelperAttributeKinds { debug: true, ..self },
            DeriveItemKind::CompareOp(CompareOp::Ord) => HelperAttributeKinds { ord: true, ..self },
            DeriveItemKind::CompareOp(CompareOp::PartialOrd) => HelperAttributeKinds {
                partial_ord: true,
                ..self
            },
            DeriveItemKind::CompareOp(CompareOp::Eq) => HelperAttributeKinds { eq: true, ..self },
            DeriveItemKind::CompareOp(CompareOp::PartialEq) => HelperAttributeKinds {
                partial_eq: true,
                ..self
            },
            DeriveItemKind::CompareOp(CompareOp::Hash) => HelperAttributeKinds {
                hash: true,
                ..self
            },
            _ => self,
        }
    }

    /// `self`, with the helper attributes of the first `n` requests of
    /// `es` read as well.
    pub open spec fn extended_upto(self, es: Seq<DeriveEntryView>, n: int) -> Self
        decreases n,
    {
        if n <= 0 {
            self
        } else {
            self.extended_upto(es, n - 1).with_kind(es[n - 1].kind)
        }
    }

    /// Whether the comparison trait `op` is among the requested traits.
    pub open spec fn requested(self, op: CompareOp) -> bool {
        match op {
            CompareOp::Ord => self.ord,
            CompareOp::PartialOrd => self.partial_ord,
            CompareOp::Eq => self.eq,
            CompareOp::PartialEq => self.partial_eq,
            CompareOp::Hash => self.hash,
        }
    }

    /// Whether the helper attribute of the comparison trait `op` is read:
    /// it is where a requested trait consults it, so `ord` for each of the
    /// five, `partial_ord` for `PartialOrd` and `PartialEq`, `eq` for `Eq`,
    /// `PartialEq` and `Hash`, and `partial_eq` and `hash` for themselves.
    pub open spec fn matches_compare(self, op: CompareOp) -> bool {
        match op {
            CompareOp::Ord => self.ord || self.partial_ord || self.eq || self.partial_eq
                || self.hash,
            CompareOp::PartialOrd => self.partial_ord || self.partial_eq,
            CompareOp::Eq => self.eq || self.partial_eq || self.hash,
            CompareOp::PartialEq => self.partial_eq,
            CompareOp::Hash => self.hash,
        }
    }

    /// Whether an annotation named `ident` is read.
    pub open spec fn matches(self, ident: Option<Seq<char>>) -> bool {
        match ident {
            None => false,
            Some(s) => if s == "derive_ex"@ {
                self.derive_ex
            } else if s == "default"@ {
                self.default
            } else if s == "debug"@ {
                self.debug
            } else if s == "ord"@ {
                self.matches_compare(CompareOp::Ord)
            } else if s == "partial_ord"@ {
                self.matches_compare(CompareOp::PartialOrd)
            } else if s == "eq"@ {
                self.matches_compare(CompareOp::Eq)
            } else if s == "partial_eq"@ {
                self.matches_compare(CompareOp::PartialEq)
            } else if s == "hash"@ {
                self.matches_compare(CompareOp::Hash)
            } else {
                false
            },
        }
    }

    /// `self`, with `#[derive_ex]` not read.
    pub open spec fn no_derive_ex(self) -> Self {
        HelperAttributeKinds { derive_ex: false, ..self }
    }

    /// No helper attribute, and `#[derive_ex]` as `derive_ex` says.
    pub fn new(derive_ex: bool) -> (r: Self)
        ensures
            r == Self::initial(derive_ex),
    {
        HelperAttributeKinds {
            derive_ex,
            default: false,
            debug: false,
            ord: false,
            partial_ord: false,
            eq: false,
            partial_eq: false,
            hash: false,
        }
    }

    /// Adds the helper attributes of the requested traits.
    pub fn extend(&mut self, es: &Vec<DeriveEntry>)
        ensures
            *final(self) == old(self).extended_upto(entries_view(es@), es.len() as int),
    {
        let ghost all = entries_view(es@);
        let ghost start = *self;
        let mut i: usize = 0;
        while i < es.len()
            invariant
                i <= es.len(),
                all == entries_view(es@),
                *self == start.extended_upto(all, i as int),
            decreases es.len() - i,
        {
            assert(all[i as int] == es@[i as int]@);
            match es[i].kind {
                DeriveItemKind::Default => {
                    self.default = true;
                },
                DeriveItemKind::Debug => {
                    self.debug = true;
                },
                DeriveItemKind::CompareOp(op) => match op {
                    CompareOp::Ord => {
                        self.ord = true;
                    },
                    CompareOp::PartialOrd => {
                        self.partial_ord = true;
                    },
                    CompareOp::Eq => {
                        self.eq = true;
                    },
                    CompareOp::PartialEq => {
                        self.partial_eq = true;
                    },
                    CompareOp::Hash => {
                        self.hash = true;
                    },
                },
                _ => {},
            }
            i = i + 1;
        }
    }

    /// Whether the helper attribute of the comparison trait `op` is read.
    pub fn is_match_cmp_attr(&self, op: CompareOp) -> (r: bool)
        ensures
            r == self.matches_compare(op),
    {
        match op {
            CompareOp::Ord => self.ord || self.partial_ord || self.eq || self.partial_eq
                || self.hash,
            CompareOp::PartialOrd => self.partial_ord || self.partial_eq,
            CompareOp::Eq => self.eq || self.partial_eq || self.hash,
            CompareOp::PartialEq => self.partial_eq,
            CompareOp::Hash => self.hash,
        }
    }

    /// Whether the annotation `attr` is read, and so removed from the item.
    pub fn is_match(&self, attr: &Attribute) -> (r: bool)
        ensures
            r == self.matches(attr@.ident),
    {
        let s = match &attr.ident {
            Some(s) => s.as_str(),
            None => {
                return false;
            },
        };
        if str_eq(s, "derive_ex") {
            self.derive_ex
        } else if str_eq(s, "default") {
            self.default
        } else if str_eq(s, "debug") {
            self.debug
        } else if str_eq(s, "ord") {
            self.is_match_cmp_attr(CompareOp::Ord)
        } else if str_eq(s, "partial_ord") {
            self.is_match_cmp_attr(CompareOp::PartialOrd)
        } else if str_eq(s, "eq") {
            self.is_match_cmp_attr(CompareOp::Eq)
        } else if str_eq(s, "partial_eq") {
            self.is_match_cmp_attr(CompareOp::PartialEq)
        } else if str_eq(s, "hash") {
            self.is_match_cmp_attr(CompareOp::Hash)
        } else {
            false
        }
    }

    /// `self`, with `#[derive_ex]` not read.
    pub fn without_derive_ex(&self) -> (r: HelperAttributeKinds)
        ensures
            r == self.no_derive_ex(),
    {
        HelperAttributeKinds {
            derive_ex: false,
            default: self.default,
            debug: self.debug,
            ord: self.ord,
            partial_ord: self.partial_ord,
            eq: self.eq,
            partial_eq: self.partial_eq,
            hash: self.hash,
        }
    }
}

/// The helper attribute of one comparison trait at one site.
pub struct HelperAttributeForCompareOp {
    pub ignore: Flag,
    pub reverse: Flag,
    /// The function that stands in for the trait's method on the field.
    pub by: Option<Fragment>,
    /// The expression whose value stands in for the field, with the
    /// placeholder for the field's value in it.
    pub key: Option<Fragment>,
    pub bounds: Bounds,
}

/// The mathematical value of a [`HelperAttributeForCompareOp`].
pub struct HelperAttributeForCompareOpView {
    pub ignore: Flag,
    pub reverse: Flag,
    pub by: Option<FragmentView>,
    pub key: Option<FragmentView>,
    pub bounds: BoundsView,
}

impl View for HelperAttributeForCompareOp {
    type V = HelperAttributeForCompareOpView;

    open spec fn view(&self) -> HelperAttributeForCompareOpView {
        HelperAttributeForCompareOpView {
            ignore: self.ignore,
            reverse: self.reverse,
            by: opt_fragment_view(self.by),
            key: opt_fragment_view(self.key),
            bounds: self.bounds@,
        }
    }
}

/// The helper attribute that is not written.
pub open spec fn no_compare_attr() -> HelperAttributeForCompareOpView {
    HelperAttributeForCompareOpView {
        ignore: Flag { span: None },
        reverse: Flag { span: None },
        by: None,
        key: None,
        bounds: inherit(),
    }
}

/// The helper attribute that the arguments `a` stand for.
pub open spec fn compare_attr_of_args(a: ArgsForCompareOpView) -> HelperAttributeForCompareOpView {
    HelperAttributeForCompareOpView {
        ignore: a.ignore,
        reverse: a.reverse,
        by: a.by,
        key: a.key,
        bounds: bounds_of(a.bound),
    }
}

/// The helper attribute of the comparison trait `op` among `attrs`.
pub open spec fn compare_attr_of(attrs: Seq<AttributeView>, op: CompareOp) -> Result<
    HelperAttributeForCompareOpView,
    DiagnosticView,
> {
    match single(attrs, op.snake_name()) {
        Err(d) => Err(d),
        Ok(None) => Ok(no_compare_attr()),
        Ok(Some(i)) => match attrs[i].meta {
            MetaView::Path => Ok(no_compare_attr()),
            MetaView::List(AttrArgsView::Compare(a)) => Ok(compare_attr_of_args(a)),
            _ => Err(
                DiagnosticView {
                    span: attrs[i].span,
                    message: unexpected_arguments_message(op.snake_name()),
                },
            ),
        },
    }
}

/// The complaint that a helper attribute holds at a type or a variant what
/// is meant for fields only; `None` where it holds nothing of the kind.
pub open spec fn compare_attr_fault(
    a: HelperAttributeForCompareOpView,
    target: AttributeTarget,
) -> Option<
    DiagnosticView,
> {
    match target {
        AttributeTarget::Type => if let Some(by) = a.by {
            Some(DiagnosticView { span: by.span, message: "cannot specify `by = ...` for type"@ })
        } else if let Some(key) = a.key {
            Some(
                DiagnosticView { span: key.span, message: "cannot specify `key = ...` for type"@ },
            )
        } else if let Some(span) = a.reverse.span {
            Some(DiagnosticView { span, message: "cannot specify `reverse` for type"@ })
        } else if let Some(span) = a.ignore.span {
            Some(DiagnosticView { span, message: "cannot specify `ignore` for type"@ })
        } else {
            None
        },
        AttributeTarget::Variant => if let Some(by) = a.by {
            Some(
                DiagnosticView {
                    span: by.span,
                    message: "cannot specify `by = ...` for enum variants"@,
                },
            )
        } else if let Some(key) = a.key {
            Some(
                DiagnosticView {
                    span: key.span,
                    message: "cannot specify `key = ...` for enum variants"@,
                },
            )
        } else if let Some(span) = a.reverse.span {
            Some(DiagnosticView { span, message: "cannot specify `reverse` for enum variants"@ })
        } else if let Some(span) = a.ignore.span {
            Some(DiagnosticView { span, message: "cannot specify `ignore` for enum variants"@ })
        } else {
            None
        },
        AttributeTarget::Field => None,
    }
}

fn diagnostic(span: usize, message: &str) -> (r: Diagnostic)
    ensures
        r@ == (DiagnosticView { span, message: message@ }),
{
    Diagnostic { span, message: message.to_owned() }
}

fn unexpected_arguments(span: usize, name: &str) -> (r: Diagnostic)
    ensures
        r@ == (DiagnosticView { span, message: unexpected_arguments_message(name@) }),
{
    let mut message = "unexpected arguments for `#[".to_owned();
    message.append(name);
    message.append("]`");
    Diagnostic { span, message }
}

impl HelperAttributeForCompareOp {
    /// The helper attribute that is not written.
    pub fn none() -> (r: Self)
        ensures
            r@ == no_compare_attr(),
    {
        HelperAttributeForCompareOp {
            ignore: Flag { span: None },
            reverse: Flag { span: None },
            by: None,
            key: None,
            bounds: Bounds::new(),
        }
    }

    /// Reads the helper attribute of the comparison trait `op`.
    pub fn from_attrs(attrs: &Vec<Attribute>, op: CompareOp) -> (r: Result<Self, Diagnostic>)
        ensures
            match r {
                Ok(a) => compare_attr_of(attrs_view(attrs@), op) == Ok::<
                    HelperAttributeForCompareOpView,
                    DiagnosticView,
                >(a@),
                Err(d) => compare_attr_of(attrs_view(attrs@), op) == Err::<
                    HelperAttributeForCompareOpView,
                    DiagnosticView,
                >(d@),
            },
    {
        let name = op.to_str_snake_case();
        match parse_single(attrs, name) {
            Err(d) => Err(d),
            Ok(None) => Ok(Self::none()),
            Ok(Some(i)) => {
                assert(attrs_view(attrs@)[i as int] == attrs@[i as int]@);
                match &attrs[i].meta {
                    Meta::Path => Ok(Self::none()),
                    Meta::List(AttrArgs::Compare(a)) => Ok(
                        HelperAttributeForCompareOp {
                            ignore: a.ignore,
                            reverse: a.reverse,
                            by: match &a.by {
                                Some(f) => Some(clone_fragment(f)),
                                None => None,
                            },
                            key: match &a.key {
                                Some(f) => Some(clone_fragment(f)),
                                None => None,
                            },
                            bounds: Bounds::from(&a.bound),
                        },
                    ),
                    _ => Err(unexpected_arguments(attrs[i].span, name)),
                }
            },
        }
    }

    /// Checks that the helper attribute holds nothing that `target` cannot
    /// take.
    pub fn verify(&self, target: AttributeTarget) -> (r: Result<(), Diagnostic>)
        ensures
            match r {
                Ok(()) => compare_attr_fault(self@, target) is None,
                Err(d) => compare_attr_fault(self@, target) == Some(d@),
            },
    {
        match target {
            AttributeTarget::Type => {
                if let Some(by) = &self.by {
                    return Err(diagnostic(by.span, "cannot specify `by = ...` for type"));
                }
                if let Some(key) = &self.key {
                    return Err(diagnostic(key.span, "cannot specify `key = ...` for type"));
                }
                if let Some(span) = self.reverse.span {
                    return Err(diagnostic(span, "cannot specify `reverse` for type"));
                }
                if let Some(span) = self.ignore.span {
                    return Err(diagnostic(span, "cannot specify `ignore` for type"));
                }
            },
            AttributeTarget::Variant => {
                if let Some(by) = &self.by {
                    return Err(diagnostic(by.span, "cannot specify `by = ...` for enum variants"));
                }
                if let Some(key) = &self.key {
                    return Err(
                        diagnostic(key.span, "cannot specify `key = ...` for enum variants"),
                    );
                }
                if let Some(span) = self.reverse.span {
                    return Err(diagnostic(span, "cannot specify `reverse` for enum variants"));
                }
                if let Some(span) = self.ignore.span {
                    return Err(diagnostic(span, "cannot specify `ignore` for enum variants"));
                }
            },
            AttributeTarget::Field => {},
        }
        Ok(())
    }
}

/// The helper attributes of the comparison family at one site.
pub struct HelperAttribtuesForCompareOp {
    pub ord: HelperAttributeForCompareOp,
    pub partial_ord: HelperAttributeForCompareOp,
    pub eq: HelperAttributeForCompareOp,
    pub partial_eq: HelperAttributeForCompareOp,
    pub hash: HelperAttributeForCompareOp,
}

/// The mathematical value of [`HelperAttribtuesForCompareOp`].
pub struct CompareAttrsView {
    pub ord: HelperAttributeForCompareOpView,
    pub partial_ord: HelperAttributeForCompareOpView,
    pub eq: HelperAttributeForCompareOpView,
    pub partial_eq: HelperAttributeForCompareOpView,
    pub hash: HelperAttributeForCompareOpView,
}

impl CompareAttrsView {
    /// The helper attribute of the trait `op`.
    pub open spec fn get(self, op: CompareOp) -> HelperAttributeForCompareOpView {
        match op {
            CompareOp::Ord => self.ord,
            CompareOp::PartialOrd => self.partial_ord,
            CompareOp::Eq => self.eq,
            CompareOp::PartialEq => self.partial_eq,
            CompareOp::Hash => self.hash,
        }
    }
}

impl View for HelperAttribtuesForCompareOp {
    type V = CompareAttrsView;

    open spec fn view(&self) -> CompareAttrsView {
        CompareAttrsView {
            ord: self.ord@,
            partial_ord: self.partial_ord@,
            eq: self.eq@,
            partial_eq: self.partial_eq@,
            hash: self.hash@,
        }
    }
}

/// The helper attribute of `op` among `attrs` where it is read, and the
/// unwritten one where it is not.
pub open spec fn compare_attr_if(
    attrs: Seq<AttributeView>,
    kinds: HelperAttributeKinds,
    op: CompareOp,
) -> Result<HelperAttributeForCompareOpView, DiagnosticView> {
    if kinds.matches_compare(op) {
        compare_attr_of(attrs, op)
    } else {
        Ok(no_compare_attr())
    }
}

/// The helper attributes of the comparison family among `attrs`; the
/// traits are read in the order `Ord`, `PartialOrd`, `Eq`, `PartialEq`,
/// `Hash`, and the first fault ends the reading.
pub open spec fn compare_attrs_of(attrs: Seq<AttributeView>, kinds: HelperAttributeKinds) -> Result<
    CompareAttrsView,
    DiagnosticView,
> {
    match compare_attr_if(attrs, kinds, CompareOp::Ord) {
        Err(d) => Err(d),
        Ok(ord) => match compare_attr_if(attrs, kinds, CompareOp::PartialOrd) {
            Err(d) => Err(d),
            Ok(partial_ord) => match compare_attr_if(attrs, kinds, CompareOp::Eq) {
                Err(d) => Err(d),
                Ok(eq) => match compare_attr_if(attrs, kinds, CompareOp::PartialEq) {
                    Err(d) => Err(d),
                    Ok(partial_eq) => match compare_attr_if(attrs, kinds, CompareOp::Hash) {
                        Err(d) => Err(d),
                        Ok(hash) => Ok(CompareAttrsView { ord, partial_ord, eq, partial_eq, hash }),
                    },
                },
            },
        },
    }
}

/// The first complaint among the helper attributes of `c`, taken in the
/// order `Ord`, `PartialOrd`, `Eq`, `PartialEq`, `Hash`.
pub open spec fn compare_attrs_fault(c: CompareAttrsView, target: AttributeTarget) -> Option<
    DiagnosticView,
> {
    if compare_attr_fault(c.ord, target) is Some {
        compare_attr_fault(c.ord, target)
    } else if compare_attr_fault(c.partial_ord, target) is Some {
        compare_attr_fault(c.partial_ord, target)
    } else if compare_attr_fault(c.eq, target) is Some {
        compare_attr_fault(c.eq, target)
    } else if compare_attr_fault(c.partial_eq, target) is Some {
        compare_attr_fault(c.partial_eq, target)
    } else {
        compare_attr_fault(c.hash, target)
    }
}

impl HelperAttribtuesForCompareOp {
    /// No helper attribute written.
    pub fn none() -> (r: Self)
        ensures
            r@.ord == no_compare_attr(),
            r@.partial_ord == no_compare_attr(),
            r@.eq == no_compare_attr(),
            r@.partial_eq == no_compare_attr(),
            r@.hash == no_compare_attr(),
    {
        HelperAttribtuesForCompareOp {
            ord: HelperAttributeForCompareOp::none(),
            partial_ord: HelperAttributeForCompareOp::none(),
            eq: HelperAttributeForCompareOp::none(),
            partial_eq: HelperAttributeForCompareOp::none(),
            hash: HelperAttributeForCompareOp::none(),
        }
    }

    /// Reads the helper attributes of the comparison family, as far as
    /// `kinds` has them read.
    pub fn from_attrs(attrs: &Vec<Attribute>, kinds: &HelperAttributeKinds) -> (r: Result<
        Self,
        Diagnostic,
    >)
        ensures
            match r {
                Ok(c) => compare_attrs_of(attrs_view(attrs@), *kinds) == Ok::<
                    CompareAttrsView,
                    DiagnosticView,
                >(c@),
                Err(d) => compare_attrs_of(attrs_view(attrs@), *kinds) == Err::<
                    CompareAttrsView,
                    DiagnosticView,
                >(d@),
            },
    {
        let ord = if kinds.is_match_cmp_attr(CompareOp::Ord) {
            HelperAttributeForCompareOp::from_attrs(attrs, CompareOp::Ord)?
        } else {
            HelperAttributeForCompareOp::none()
        };
        let partial_ord = if kinds.is_match_cmp_attr(CompareOp::PartialOrd) {
            HelperAttributeForCompareOp::from_attrs(attrs, CompareOp::PartialOrd)?
        } else {
            HelperAttributeForCompareOp::none()
        };
        let eq = if kinds.is_match_cmp_attr(CompareOp::Eq) {
            HelperAttributeForCompareOp::from_attrs(attrs, CompareOp::Eq)?
        } else {
            HelperAttributeForCompareOp::none()
        };
        let partial_eq = if kinds.is_match_cmp_attr(CompareOp::PartialEq) {
            HelperAttributeForCompareOp::from_attrs(attrs, CompareOp::PartialEq)?
        } else {
            HelperAttributeForCompareOp::none()
        };
        let hash = if kinds.is_match_cmp_attr(CompareOp::Hash) {
            HelperAttributeForCompareOp::from_attrs(attrs, CompareOp::Hash)?
        } else {
            HelperAttributeForCompareOp::none()
        };
        Ok(HelperAttribtuesForCompareOp { ord, partial_ord, eq, partial_eq, hash })
    }

    /// The helper attribute of the trait `op`.
    pub fn get(&self, op: CompareOp) -> (r: &HelperAttributeForCompareOp)
        ensures
            r@ == self@.get(op),
    {
        match op {
            CompareOp::Ord => &self.ord,
            CompareOp::PartialOrd => &self.partial_ord,
            CompareOp::Eq => &self.eq,
            CompareOp::PartialEq => &self.partial_eq,
            CompareOp::Hash => &self.hash,
        }
    }

    /// Checks that no helper attribute holds what `target` cannot take.
    pub fn verify(&self, target: AttributeTarget) -> (r: Result<(), Diagnostic>)
        ensures
            match r {
                Ok(()) => compare_attrs_fault(self@, target) is None,
                Err(d) => compare_attrs_fault(self@, target) == Some(d@),
            },
    {
        self.ord.verify(target)?;
        self.partial_ord.verify(target)?;
        self.eq.verify(target)?;
        self.partial_eq.verify(target)?;
        self.hash.verify(target)?;
        Ok(())
    }
}

} // verus!
