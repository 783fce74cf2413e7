//! What the annotations at one site mean for each trait: the requests made
//! with `#[derive_ex(...)]` and the helper attributes of the traits.

use vstd::prelude::*;
use crate::attrs::{
    attrs_view, clone_diagnostic, Args, ArgsView, AttrArgs, AttrArgsView, Attribute, AttributeView,
    Meta, MetaView,
};
use crate::bound::{bounds_of, inherit, Bounds, BoundsView};
use crate::kinds::DeriveItemKind;
use crate::text::{Diagnostic, DiagnosticView};

verus! {

/// What an annotation is attached to.
#[derive(Debug, Copy, Clone, Eq, PartialEq, Structural)]
pub enum AttributeTarget {
    Type,
    Variant,
    Field,
}

/// One request for a trait, as made with `#[derive_ex(...)]`.
pub struct DeriveEntry {
    pub kind: DeriveItemKind,
    /// Where the trait's name is written.
    pub span: usize,
    /// Whether the generated code is to be reported instead of used.
    pub dump: bool,
    /// The `bound(...)` given to this trait alone.
    pub bounds_this: Bounds,
    /// The `bound(...)` common to the traits of the annotation.
    pub bounds_common: Bounds,
}

/// The mathematical value of a [`DeriveEntry`].
pub struct DeriveEntryView {
    pub kind: DeriveItemKind,
    pub span: usize,
    pub dump: bool,
    pub bounds_this: BoundsView,
    pub bounds_common: BoundsView,
}

impl View for DeriveEntry {
    type V = DeriveEntryView;

    open spec fn view(&self) -> DeriveEntryView {
        DeriveEntryView {
            kind: self.kind,
            span: self.span,
            dump: self.dump,
            bounds_this: self.bounds_this@,
            bounds_common: self.bounds_common@,
        }
    }
}

/// The values of a list of requests.
pub open spec fn entries_view(es: Seq<DeriveEntry>) -> Seq<DeriveEntryView> {
    es.map_values(|e: DeriveEntry| e@)
}

/// The values of a list of argument lists.
pub open spec fn args_list_view(list: Seq<&Args>) -> Seq<ArgsView> {
    list.map_values(|a: &Args| a@)
}

/// The complaint about `#[derive_ex]` without arguments.
pub open spec fn derive_path_message() -> Seq<char> {
    "expected attribute arguments in parentheses: #[derive_ex(...)]"@
}

/// The complaint about `#[derive_ex = value]`.
pub open spec fn derive_name_value_message() -> Seq<char> {
    "expected parentheses: #[derive_ex(...)]"@
}

/// The complaint about arguments that belong to another annotation.
pub open spec fn unexpected_arguments_message(name: Seq<char>) -> Seq<char> {
    "unexpected arguments for `#["@ + name + "]`"@
}

/// The arguments of an annotation named `derive_ex`.
pub open spec fn derive_args_of(a: AttributeView) -> Result<ArgsView, DiagnosticView> {
    match a.meta {
        MetaView::List(AttrArgsView::Derive(args)) => Ok(args),
        MetaView::List(AttrArgsView::Invalid(d)) => Err(d),
        MetaView::List(_) => Err(
            DiagnosticView { span: a.span, message: unexpected_arguments_message("derive_ex"@) },
        ),
        MetaView::Path => Err(DiagnosticView { span: a.span, message: derive_path_message() }),
        MetaView::NameValue => Err(
            DiagnosticView { span: a.span, message: derive_name_value_message() },
        ),
    }
}

/// `acc` followed by the arguments of the annotations named `derive_ex`
/// among `attrs` from position `i` on; the first annotation whose arguments
/// cannot be read ends the reading.
pub open spec fn derive_args_from(attrs: Seq<AttributeView>, i: int, acc: Seq<ArgsView>) -> Result<
    Seq<ArgsView>,
    DiagnosticView,
>
    decreases attrs.len() - i,
{
    if i < 0 || i >= attrs.len() {
        Ok(acc)
    } else if attrs[i].ident == Some("derive_ex"@) {
        match derive_args_of(attrs[i]) {
            Ok(args) => derive_args_from(attrs, i + 1, acc.push(args)),
            Err(d) => Err(d),
        }
    } else {
        derive_args_from(attrs, i + 1, acc)
    }
}

/// The request that the `j`-th trait of `a` makes, once its name is read
/// as `kind`.
pub open spec fn entry_of(a: ArgsView, j: int, kind: DeriveItemKind) -> DeriveEntryView {
    let item = a.items[j];
    DeriveEntryView {
        kind,
        span: item.span,
        dump: a.dump || (item.args matches Some(x) && x.dump),
        bounds_this: match item.args {
            Some(x) => bounds_of(x.bound),
            None => inherit(),
        },
        bounds_common: bounds_of(a.bound),
    }
}

/// `acc` followed by the requests of the traits of `a` from position `j`
/// on; a name that is no trait's ends the reading.
pub open spec fn entries_of_args(a: ArgsView, j: int, acc: Seq<DeriveEntryView>) -> Result<
    Seq<DeriveEntryView>,
    DiagnosticView,
>
    decreases a.items.len() - j,
{
    if j < 0 || j >= a.items.len() {
        Ok(acc)
    } else {
        match DeriveItemKind::of_ident(a.items[j].trait_ident, a.items[j].span) {
            Ok(kind) => entries_of_args(a, j + 1, acc.push(entry_of(a, j, kind))),
            Err(d) => Err(d),
        }
    }
}

/// `acc` followed by the requests of the argument lists of `list` from
/// position `i` on, in order.
pub open spec fn entries_of_list(list: Seq<ArgsView>, i: int, acc: Seq<DeriveEntryView>) -> Result<
    Seq<DeriveEntryView>,
    DiagnosticView,
>
    decreases list.len() - i,
{
    if i < 0 || i >= list.len() {
        Ok(acc)
    } else {
        match entries_of_args(list[i], 0, acc) {
            Ok(acc2) => entries_of_list(list, i + 1, acc2),
            Err(d) => Err(d),
        }
    }
}

/// The requests made by the annotations named `derive_ex` among `attrs`.
pub open spec fn entries_of_attrs(attrs: Seq<AttributeView>) -> Result<
    Seq<DeriveEntryView>,
    DiagnosticView,
> {
    match derive_args_from(attrs, 0, Seq::empty()) {
        Ok(list) => entries_of_list(list, 0, Seq::empty()),
        Err(d) => Err(d),
    }
}

/// The arguments with which the generator itself was invoked.
pub open spec fn root_args_of(attr: AttrArgsView) -> Result<ArgsView, DiagnosticView> {
    match attr {
        AttrArgsView::Derive(args) => Ok(args),
        AttrArgsView::Invalid(d) => Err(d),
        _ => Err(
            DiagnosticView {
                span: crate::text::CALL_SITE,
                message: unexpected_arguments_message("derive_ex"@),
            },
        ),
    }
}

/// The requests for an item: those of the arguments that the generator was
/// invoked with, if any, then those of the item's annotations named
/// `derive_ex`.
pub open spec fn entries_of_root(attr: Option<AttrArgsView>, attrs: Seq<AttributeView>) -> Result<
    Seq<DeriveEntryView>,
    DiagnosticView,
> {
    match attr {
        Some(a) => match root_args_of(a) {
            Ok(args) => match derive_args_from(attrs, 0, seq![args]) {
                Ok(list) => entries_of_list(list, 0, Seq::empty()),
                Err(d) => Err(d),
            },
            Err(d) => Err(d),
        },
        None => entries_of_attrs(attrs),
    }
}

/// The position of the request for `kind` that counts among the first `n`
/// of `items`: the last one.
pub open spec fn entry_for_upto(
    items: Seq<DeriveEntryView>,
    kind: DeriveItemKind,
    n: int,
) -> Option<
    int,
>
    decreases n,
{
    if n <= 0 {
        None
    } else if items[n - 1].kind == kind {
        Some(n - 1)
    } else {
        entry_for_upto(items, kind, n - 1)
    }
}

/// The position of the request for `kind` that counts in `items`.
pub open spec fn entry_for(items: Seq<DeriveEntryView>, kind: DeriveItemKind) -> Option<int> {
    entry_for_upto(items, kind, items.len() as int)
}

fn unexpected_arguments(span: usize, name: &str) -> (r: Diagnostic)
    ensures
        r@ == (DiagnosticView { span, message: unexpected_arguments_message(name@) }),
{
    let mut message = "unexpected arguments for `#[".to_owned();
    message.append(name);
    message.append("]`");
    Diagnostic { span, message }
}

/// Reads the arguments of the annotations named `derive_ex` into `list`.
pub fn parse_derive_ex_attrs<'a>(list: &mut Vec<&'a Args>, attrs: &'a Vec<Attribute>) -> (r: Result<
    (),
    Diagnostic,
>)
    ensures
        match r {
            Ok(()) => derive_args_from(attrs_view(attrs@), 0, args_list_view(old(list)@)) == Ok::<
                Seq<ArgsView>,
                DiagnosticView,
            >(args_list_view(final(list)@)),
            Err(d) => derive_args_from(attrs_view(attrs@), 0, args_list_view(old(list)@)) == Err::<
                Seq<ArgsView>,
                DiagnosticView,
            >(d@),
        },
{
    let ghost all = attrs_view(attrs@);
    let ghost start = args_list_view(list@);
    let mut i: usize = 0;
    while i < attrs.len()
        invariant
            i <= attrs.len(),
            all == attrs_view(attrs@),
            start == args_list_view(old(list)@),
            derive_args_from(all, 0, start) == derive_args_from(
                all,
                i as int,
                args_list_view(list@),
            ),
        decreases attrs.len() - i,
    {
        let attr = &attrs[i];
        assert(all[i as int] == attr@);
        if attr.is_ident("derive_ex") {
            let ghost before = args_list_view(list@);
            match &attr.meta {
                Meta::List(AttrArgs::Derive(args)) => {
                    list.push(args);
                    assert(args_list_view(list@) =~= before.push(args@));
                },
                Meta::List(AttrArgs::Invalid(d)) => {
                    return Err(clone_diagnostic(d));
                },
                Meta::List(_) => {
                    return Err(unexpected_arguments(attr.span, "derive_ex"));
                },
                Meta::Path => {
                    return Err(
                        Diagnostic {
                            span: attr.span,
                            message: "expected attribute arguments in parentheses: #[derive_ex(...)]".to_owned(),
                        },
                    );
                },
                Meta::NameValue => {
                    return Err(
                        Diagnostic {
                            span: attr.span,
                            message: "expected parentheses: #[derive_ex(...)]".to_owned(),
                        },
                    );
                },
            }
        }
        i = i + 1;
    }
    Ok(())
}

impl DeriveEntry {
    /// The requests of an item.
    pub fn from_root(attr: Option<&AttrArgs>, attrs: &Vec<Attribute>) -> (r: Result<
        Vec<DeriveEntry>,
        Diagnostic,
    >)
        ensures
            match r {
                Ok(es) => entries_of_root(
                    match attr {
                        Some(a) => Some(a@),
                        None => None,
                    },
                    attrs_view(attrs@),
                ) == Ok::<Seq<DeriveEntryView>, DiagnosticView>(entries_view(es@)),
                Err(d) => entries_of_root(
                    match attr {
                        Some(a) => Some(a@),
                        None => None,
                    },
                    attrs_view(attrs@),
                ) == Err::<Seq<DeriveEntryView>, DiagnosticView>(d@),
            },
    {
        let mut args_list: Vec<&Args> = Vec::new();
        assert(args_list_view(args_list@) =~= Seq::empty());
        match attr {
            Some(AttrArgs::Derive(args)) => {
                args_list.push(args);
                assert(args_list_view(args_list@) =~= seq![args@]);
            },
            Some(AttrArgs::Invalid(d)) => {
                return Err(clone_diagnostic(d));
            },
            Some(_) => {
                return Err(unexpected_arguments(crate::text::CALL_SITE, "derive_ex"));
            },
            None => {},
        }
        match parse_derive_ex_attrs(&mut args_list, attrs) {
            Ok(()) => {},
            Err(d) => {
                return Err(d);
            },
        }
        Self::from_args_list(&args_list)
    }

    /// The requests that a list of arguments of `#[derive_ex(...)]` makes,
    /// in the order written.
    pub fn from_args_list(args_list: &Vec<&Args>) -> (r: Result<Vec<DeriveEntry>, Diagnostic>)
        ensures
            match r {
                Ok(es) => entries_of_list(args_list_view(args_list@), 0, Seq::empty()) == Ok::<
                    Seq<DeriveEntryView>,
                    DiagnosticView,
                >(entries_view(es@)),
                Err(d) => entries_of_list(args_list_view(args_list@), 0, Seq::empty()) == Err::<
                    Seq<DeriveEntryView>,
                    DiagnosticView,
                >(d@),
            },
    {
        let ghost all = args_list_view(args_list@);
        let mut results: Vec<DeriveEntry> = Vec::new();
        assert(entries_view(results@) =~= Seq::empty());
        let mut i: usize = 0;
        while i < args_list.len()
            invariant
                i <= args_list.len(),
                all == args_list_view(args_list@),
                entries_of_list(all, 0, Seq::empty()) == entries_of_list(
                    all,
                    i as int,
                    entries_view(results@),
                ),
            decreases args_list.len() - i,
        {
            let a = args_list[i];
            assert(all[i as int] == a@);
            let ghost outer = entries_view(results@);
            let mut j: usize = 0;
            while j < a.items.len()
                invariant
                    j <= a.items.len(),
                    all == args_list_view(args_list@),
                    entries_of_list(all, 0, Seq::empty()) == entries_of_list(
                        all,
                        i as int,
                        outer,
                    ),
                    all[i as int] == a@,
                    0 <= i < all.len(),
                    entries_of_args(a@, 0, outer) == entries_of_args(
                        a@,
                        j as int,
                        entries_view(results@),
                    ),
                decreases a.items.len() - j,
            {
                let item = &a.items[j];
                assert(a@.items[j as int] == item@);
                let kind = match DeriveItemKind::from_ident(item.trait_ident.as_str(), item.span) {
                    Ok(kind) => kind,
                    Err(d) => {
                        return Err(d);
                    },
                };
                let (dump, bounds_this) = match &item.args {
                    Some(args) => (args.dump, Bounds::from(&args.bound)),
                    None => (false, Bounds::new()),
                };
                let entry = DeriveEntry {
                    kind,
                    span: item.span,
                    dump: a.dump || dump,
                    bounds_this,
                    bounds_common: Bounds::from(&a.bound),
                };
                let ghost before = entries_view(results@);
                assert(entry@ == entry_of(a@, j as int, kind));
                results.push(entry);
                assert(entries_view(results@) =~= before.push(entry_of(a@, j as int, kind)));
                j = j + 1;
            }
            i = i + 1;
        }
        Ok(results)
    }
}

/// Finds the request for `kind` that counts in `items`: the last one.
pub fn find_entry(items: &Vec<DeriveEntry>, kind: DeriveItemKind) -> (r: Option<usize>)
    ensures
        match r {
            Some(i) => entry_for(entries_view(items@), kind) == Some(i as int) && i < items.len(),
            None => entry_for(entries_view(items@), kind) is None,
        },
{
    let ghost all = entries_view(items@);
    let mut found: Option<usize> = None;
    let mut i: usize = 0;
    while i < items.len()
        invariant
            i <= items.len(),
            all == entries_view(items@),
            match found {
                Some(k) => entry_for_upto(all, kind, i as int) == Some(k as int) && k < i,
                None => entry_for_upto(all, kind, i as int) is None,
            },
        decreases items.len() - i,
    {
        assert(all[i as int] == items@[i as int]@);
        if items[i].kind == kind {
            found = Some(i);
        }
        i = i + 1;
    }
    found
}

} // verus!
