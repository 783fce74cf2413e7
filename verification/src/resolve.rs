//! The bound sites of a field across the levels of an item, and the bounds
//! that the fields of an item contribute to an implementation.

use vstd::prelude::*;
use crate::bound::{
    resolved, scanned, sites_view, Bounds, BoundsView, WhereClauseBuilder, WhereClauseView,
};
use crate::compare_op::{steps_fit, Rule, Step};
use crate::helper::{DeriveEntry, DeriveEntryView};
use crate::item::{field_entries_view, FieldEntry, FieldEntryView};
use crate::kinds::{CompareOp, DeriveItemKind};
use crate::site::{
    chain, chain_of, with_compare_sites, with_item_sites, with_level_sites, HelperAttributes,
    HelperAttributesView,
};

verus! {

/// `acc` followed by the bound sites of a request at the level of the
/// item, from the highest priority down: the helper attributes written on
/// the item, the request's own `bound(...)`, the common one.
pub open spec fn with_type_sites(
    acc: Seq<BoundsView>,
    h: HelperAttributesView,
    kind: DeriveItemKind,
    e: DeriveEntryView,
) -> Seq<BoundsView> {
    with_level_sites(acc, h, kind).push(e.bounds_this).push(e.bounds_common)
}

/// The bound sites above the fields of a struct: those of the item.
pub open spec fn struct_upper(
    h: HelperAttributesView,
    kind: DeriveItemKind,
    e: DeriveEntryView,
) -> Seq<BoundsView> {
    with_type_sites(Seq::empty(), h, kind, e)
}

/// The bound sites above the fields of a variant: those of the variant,
/// then those of the item.
pub open spec fn variant_upper(
    v: HelperAttributesView,
    h: HelperAttributesView,
    kind: DeriveItemKind,
    e: DeriveEntryView,
) -> Seq<BoundsView> {
    with_type_sites(with_level_sites(Seq::empty(), v, kind), h, kind, e)
}

/// The bounds after a field has contributed to the implementation of
/// `kind`: the sites of the field are scanned before the sites `upper`
/// above it, and the field's own type is bounded where all of them defer
/// and `auto` is set.
pub open spec fn field_bounds(
    w: WhereClauseView,
    kind: DeriveItemKind,
    e: FieldEntryView,
    upper: Seq<BoundsView>,
    auto: bool,
) -> WhereClauseView {
    resolved(w, with_level_sites(Seq::empty(), e.hattrs, kind) + upper, auto, e.field.ty)
}

/// The bounds after the first `n` of the fields `entries` have contributed
/// to the implementation of `kind`, each with its own type bounded where
/// no site speaks for it.
pub open spec fn fields_bounds(
    w: WhereClauseView,
    kind: DeriveItemKind,
    entries: Seq<FieldEntryView>,
    upper: Seq<BoundsView>,
    n: int,
) -> WhereClauseView
    decreases n,
{
    if n <= 0 {
        w
    } else {
        field_bounds(
            fields_bounds(w, kind, entries, upper, n - 1),
            kind,
            entries[n - 1],
            upper,
            true,
        )
    }
}

/// The bounds after a level without a field to speak through has
/// contributed: the sites `upper` of the level are scanned once, and no
/// type is bounded of itself.
pub open spec fn level_bounds(w: WhereClauseView, upper: Seq<BoundsView>) -> WhereClauseView {
    scanned(w, true, upper).0
}

/// The bounds after the fields `entries` below the sites `upper` have
/// contributed to the implementation of `kind`: every field in turn, or
/// the sites above them once where there is no field.
pub open spec fn all_fields_bounds(
    w: WhereClauseView,
    kind: DeriveItemKind,
    entries: Seq<FieldEntryView>,
    upper: Seq<BoundsView>,
) -> WhereClauseView {
    if entries.len() == 0 {
        level_bounds(w, upper)
    } else {
        fields_bounds(w, kind, entries, upper, entries.len() as int)
    }
}

/// The bound sites of a field for the comparison trait `op`: the helper
/// attributes of the first `consulted` links of the chain of `op`, then
/// the sites of the request for `op` made at the field.
pub open spec fn compare_field_sites(e: FieldEntryView, op: CompareOp, consulted: int) -> Seq<
    BoundsView,
> {
    with_item_sites(
        with_compare_sites(Seq::empty(), e.hattrs.compare, chain(op), consulted),
        e.hattrs.items,
        DeriveItemKind::CompareOp(op),
    )
}

/// The bounds after the field of one step has contributed to the
/// implementation of `op`. Only the helper attributes that were consulted
/// for the field's rule are among its sites, and the field's own type is
/// bounded only where its own implementation is used.
pub open spec fn step_bounds(
    w: WhereClauseView,
    op: CompareOp,
    e: FieldEntryView,
    step: Step,
    upper: Seq<BoundsView>,
) -> WhereClauseView {
    resolved(
        w,
        compare_field_sites(e, op, step.consulted as int) + upper,
        step.rule == Rule::Default,
        e.field.ty,
    )
}

/// The bounds after the fields of the first `n` of `steps` have
/// contributed to the implementation of `op`.
pub open spec fn steps_bounds(
    w: WhereClauseView,
    op: CompareOp,
    entries: Seq<FieldEntryView>,
    steps: Seq<Step>,
    upper: Seq<BoundsView>,
    n: int,
) -> WhereClauseView
    decreases n,
{
    if n <= 0 {
        w
    } else {
        step_bounds(
            steps_bounds(w, op, entries, steps, upper, n - 1),
            op,
            entries[steps[n - 1].index as int],
            steps[n - 1],
            upper,
        )
    }
}

/// The bounds after the fields of `steps` below the sites `upper` have
/// contributed to the implementation of `op`: the field of every step in
/// turn, or the sites above them once where no field takes part.
pub open spec fn all_steps_bounds(
    w: WhereClauseView,
    op: CompareOp,
    entries: Seq<FieldEntryView>,
    steps: Seq<Step>,
    upper: Seq<BoundsView>,
) -> WhereClauseView {
    if steps.len() == 0 {
        level_bounds(w, upper)
    } else {
        steps_bounds(w, op, entries, steps, upper, steps.len() as int)
    }
}

/// Appends the sites of `src` to `dst`.
pub fn extend_sites<'a>(dst: &mut Vec<&'a Bounds>, src: &Vec<&'a Bounds>)
    ensures
        sites_view(final(dst)@) == sites_view(old(dst)@) + sites_view(src@),
{
    let ghost start = sites_view(dst@);
    let mut i: usize = 0;
    assert(start + sites_view(src@).take(0) =~= start);
    while i < src.len()
        invariant
            i <= src.len(),
            sites_view(dst@) == start + sites_view(src@).take(i as int),
        decreases src.len() - i,
    {
        let ghost before = sites_view(dst@);
        dst.push(src[i]);
        assert(sites_view(dst@) =~= before.push(src@[i as int]@));
        assert(sites_view(src@).take(i as int + 1) =~= sites_view(src@).take(i as int).push(
            src@[i as int]@,
        ));
        i = i + 1;
    }
    assert(sites_view(src@).take(src.len() as int) =~= sites_view(src@));
}

/// Appends to `sites` the bound sites of the request `e` for the trait
/// `kind` at the level of the item, whose annotations say `hattrs`.
pub fn push_type_sites<'a>(
    sites: &mut Vec<&'a Bounds>,
    hattrs: &'a HelperAttributes,
    kind: DeriveItemKind,
    e: &'a DeriveEntry,
)
    ensures
        sites_view(final(sites)@) == with_type_sites(sites_view(old(sites)@), hattrs@, kind, e@),
{
    hattrs.push_sites(kind, sites);
    let ghost mid = sites_view(sites@);
    sites.push(&e.bounds_this);
    sites.push(&e.bounds_common);
    assert(sites_view(sites@) =~= mid.push(e.bounds_this@).push(e.bounds_common@));
}

/// The bound sites above the fields of a struct.
pub fn struct_sites<'a>(
    hattrs: &'a HelperAttributes,
    kind: DeriveItemKind,
    e: &'a DeriveEntry,
) -> (r: Vec<&'a Bounds>)
    ensures
        sites_view(r@) == struct_upper(hattrs@, kind, e@),
{
    let mut sites: Vec<&Bounds> = Vec::new();
    assert(sites_view(sites@) =~= Seq::empty());
    push_type_sites(&mut sites, hattrs, kind, e);
    sites
}

/// The bound sites above the fields of a variant whose annotations say
/// `v`.
pub fn variant_sites<'a>(
    v: &'a HelperAttributes,
    hattrs: &'a HelperAttributes,
    kind: DeriveItemKind,
    e: &'a DeriveEntry,
) -> (r: Vec<&'a Bounds>)
    ensures
        sites_view(r@) == variant_upper(v@, hattrs@, kind, e@),
{
    let mut sites: Vec<&Bounds> = Vec::new();
    assert(sites_view(sites@) =~= Seq::empty());
    v.push_sites(kind, &mut sites);
    push_type_sites(&mut sites, hattrs, kind, e);
    sites
}

impl<'a> FieldEntry<'a> {
    /// Lets the field contribute its bounds to the implementation of
    /// `kind`.
    pub fn push_bounds_to(
        &self,
        kind: DeriveItemKind,
        upper: &Vec<&Bounds>,
        auto: bool,
        wcb: &mut WhereClauseBuilder,
    )
        ensures
            final(wcb)@ == field_bounds(old(wcb)@, kind, self@, sites_view(upper@), auto),
    {
        let mut sites: Vec<&Bounds> = Vec::new();
        assert(sites_view(sites@) =~= Seq::empty());
        self.hattrs.push_sites(kind, &mut sites);
        extend_sites(&mut sites, upper);
        wcb.resolve(&sites, auto, &self.field.ty);
    }

    /// Lets the field of a step contribute its bounds to the
    /// implementation of `op`.
    pub(crate) fn push_step_bounds(
        &self,
        op: CompareOp,
        step: &Step,
        upper: &Vec<&Bounds>,
        wcb: &mut WhereClauseBuilder,
    )
        requires
            step.consulted <= chain(op).len(),
        ensures
            final(wcb)@ == step_bounds(old(wcb)@, op, self@, *step, sites_view(upper@)),
    {
        let links = chain_of(op);
        let mut sites: Vec<&Bounds> = Vec::new();
        assert(sites_view(sites@) =~= Seq::empty());
        let mut i: usize = 0;
        while i < step.consulted
            invariant
                i <= step.consulted <= links.len(),
                links@ == chain(op),
                sites_view(sites@) == with_compare_sites(
                    Seq::empty(),
                    self@.hattrs.compare,
                    links@,
                    i as int,
                ),
            decreases step.consulted - i,
        {
            let ghost before = sites_view(sites@);
            let a = self.hattrs.compare.get(links[i]);
            sites.push(&a.bounds);
            assert(sites_view(sites@) =~= before.push(a.bounds@));
            i = i + 1;
        }
        self.hattrs.push_item_sites(DeriveItemKind::CompareOp(op), &mut sites);
        extend_sites(&mut sites, upper);
        let auto = match step.rule {
            Rule::Default => true,
            _ => false,
        };
        wcb.resolve(&sites, auto, &self.field.ty);
    }
}

/// Lets a level without a field contribute its bounds: scans its sites
/// once.
pub fn push_level_bounds(upper: &Vec<&Bounds>, wcb: &mut WhereClauseBuilder)
    ensures
        final(wcb)@ == level_bounds(old(wcb)@, sites_view(upper@)),
{
    let _ = wcb.scan(true, upper);
}

/// Lets every field of `entries` contribute its bounds to the
/// implementation of `kind`, in declaration order; where there is no
/// field, the sites above are scanned once.
pub fn push_fields_bounds(
    kind: DeriveItemKind,
    entries: &Vec<FieldEntry>,
    upper: &Vec<&Bounds>,
    wcb: &mut WhereClauseBuilder,
)
    ensures
        final(wcb)@ == all_fields_bounds(
            old(wcb)@,
            kind,
            field_entries_view(entries@),
            sites_view(upper@),
        ),
{
    if entries.len() == 0 {
        push_level_bounds(upper, wcb);
        return ;
    }
    let ghost start = wcb@;
    let ghost all = field_entries_view(entries@);
    let mut i: usize = 0;
    while i < entries.len()
        invariant
            i <= entries.len(),
            all == field_entries_view(entries@),
            wcb@ == fields_bounds(start, kind, all, sites_view(upper@), i as int),
        decreases entries.len() - i,
    {
        assert(all[i as int] == entries@[i as int]@);
        entries[i].push_bounds_to(kind, upper, true, wcb);
        i = i + 1;
    }
}

/// Lets the fields of `steps` contribute their bounds to the
/// implementation of `op`, in order; where no field takes part, the sites
/// above are scanned once.
pub(crate) fn push_steps_bounds(
    op: CompareOp,
    entries: &Vec<FieldEntry>,
    steps: &Vec<Step>,
    upper: &Vec<&Bounds>,
    wcb: &mut WhereClauseBuilder,
)
    requires
        steps_fit(steps@, op, field_entries_view(entries@)),
    ensures
        final(wcb)@ == all_steps_bounds(
            old(wcb)@,
            op,
            field_entries_view(entries@),
            steps@,
            sites_view(upper@),
        ),
{
    if steps.len() == 0 {
        push_level_bounds(upper, wcb);
        return ;
    }
    let ghost start = wcb@;
    let ghost all = field_entries_view(entries@);
    let mut i: usize = 0;
    while i < steps.len()
        invariant
            i <= steps.len(),
            steps_fit(steps@, op, field_entries_view(entries@)),
            all == field_entries_view(entries@),
            wcb@ == steps_bounds(start, op, all, steps@, sites_view(upper@), i as int),
        decreases steps.len() - i,
    {
        let step = &steps[i];
        assert(steps@[i as int].index < entries.len());
        assert(all[step.index as int] == entries@[step.index as int]@);
        entries[step.index].push_step_bounds(op, step, upper, wcb);
        i = i + 1;
    }
}

} // verus!
