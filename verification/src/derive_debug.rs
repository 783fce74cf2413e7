//! The implementation of `Debug`.

use vstd::prelude::*;
use crate::bound::{
    fresh, put_where_clause, sites_view, BoundForm, Bounds, BoundsView, WhereClauseBuilder,
    WhereClauseView,
};
use crate::compare_expr::ItemSourceKind;
use crate::helper::{DeriveEntry, DeriveEntryView};
use crate::item::{
    binding_text, field_entries_view, member_text, put_pattern, variant_entries_view, FieldEntry,
    FieldEntryView, FieldsKind, ItemEnum, ItemEnumView, ItemStruct, ItemStructView, VariantEntry,
    VariantEntryView,
};
use crate::item_type::{build_impl_head, put_impl_head};
use crate::kinds::DeriveItemKind;
use crate::resolve::{
    field_bounds, level_bounds, push_level_bounds, struct_sites, struct_upper, variant_sites,
    variant_upper,
};
use crate::site::{HelperAttributes, HelperAttributesView};
use crate::structural_text::{
    push_debug_field, push_debug_named_field, push_debug_open, push_debug_transparent,
    put_debug_field, put_debug_named_field, put_debug_open, put_debug_transparent,
};
use crate::text::{Diagnostic, DiagnosticView};

verus! {

/// Which fields of a struct or a variant are shown, and how.
pub struct DebugPlan {
    /// Whether one field is shown in place of the whole.
    pub transparent: bool,
    /// The positions of the fields that are shown, in declaration order;
    /// the one field where `transparent` is set.
    pub picks: Vec<usize>,
}

/// The mathematical value of a [`DebugPlan`].
pub struct DebugPlanView {
    pub transparent: bool,
    pub picks: Seq<usize>,
}

impl View for DebugPlan {
    type V = DebugPlanView;

    open spec fn view(&self) -> DebugPlanView {
        DebugPlanView { transparent: self.transparent, picks: self.picks@ }
    }
}

/// The values of a list of plans.
pub open spec fn debug_plans_view(ps: Seq<DebugPlan>) -> Seq<DebugPlanView> {
    ps.map_values(|p: DebugPlan| p@)
}

/// The complaint about a second field marked `#[debug(transparent)]`.
pub open spec fn transparent_twice_message() -> Seq<char> {
    "only one field can be set `#[debug(transparent)]`"@
}

/// The position of the one field marked `#[debug(transparent)]` among
/// `entries` from position `i` on, where `found` is the one met so far; a
/// second such field is a fault.
pub open spec fn transparent_from(
    entries: Seq<FieldEntryView>,
    i: int,
    found: Option<usize>,
) -> Result<
    Option<usize>,
    DiagnosticView,
>
    decreases entries.len() - i,
{
    if i < 0 || i >= entries.len() {
        Ok(found)
    } else if let Some(span) = entries[i].hattrs.debug.transparent.span {
        if found is Some {
            Err(DiagnosticView { span, message: transparent_twice_message() })
        } else {
            transparent_from(entries, i + 1, Some(i as usize))
        }
    } else {
        transparent_from(entries, i + 1, found)
    }
}

/// The positions of those of the first `n` fields that are not marked
/// `#[debug(skip)]`.
pub open spec fn shown_upto(entries: Seq<FieldEntryView>, n: int) -> Seq<usize>
    decreases n,
{
    if n <= 0 {
        Seq::empty()
    } else if entries[n - 1].hattrs.debug.ignore.is_set() {
        shown_upto(entries, n - 1)
    } else {
        shown_upto(entries, n - 1).push((n - 1) as usize)
    }
}

/// The plan for the fields `entries`: the field marked transparent alone,
/// or every field that is not skipped.
pub open spec fn debug_plan_of(entries: Seq<FieldEntryView>) -> Result<
    DebugPlanView,
    DiagnosticView,
> {
    match transparent_from(entries, 0, None) {
        Err(d) => Err(d),
        Ok(Some(i)) => Ok(DebugPlanView { transparent: true, picks: seq![i] }),
        Ok(None) => Ok(
            DebugPlanView { transparent: false, picks: shown_upto(entries, entries.len() as int) },
        ),
    }
}

/// Whether every pick of `plan` is the position of one of `n` fields, and
/// a transparent plan picks one field.
pub open spec fn debug_plan_fits(plan: DebugPlanView, n: int) -> bool {
    &&& forall|j: int| 0 <= j < plan.picks.len() ==> (#[trigger] plan.picks[j]) < n
    &&& plan.transparent ==> plan.picks.len() == 1
}

/// `acc` followed by the plans of the variants `variants` from position
/// `i` on. The first fault ends the walk.
pub open spec fn debug_plans_from(
    variants: Seq<VariantEntryView>,
    i: int,
    acc: Seq<DebugPlanView>,
) -> Result<Seq<DebugPlanView>, DiagnosticView>
    decreases variants.len() - i,
{
    if i < 0 || i >= variants.len() {
        Ok(acc)
    } else {
        match debug_plan_of(variants[i].fields) {
            Err(d) => Err(d),
            Ok(p) => debug_plans_from(variants, i + 1, acc.push(p)),
        }
    }
}

/// The bounds after the fields at the first `n` of the positions `picks`
/// have contributed to the implementation of `kind`.
pub open spec fn picked_bounds(
    w: WhereClauseView,
    kind: DeriveItemKind,
    entries: Seq<FieldEntryView>,
    picks: Seq<usize>,
    upper: Seq<BoundsView>,
    n: int,
) -> WhereClauseView
    decreases n,
{
    if n <= 0 {
        w
    } else {
        field_bounds(
            picked_bounds(w, kind, entries, picks, upper, n - 1),
            kind,
            entries[picks[n - 1] as int],
            upper,
            true,
        )
    }
}

/// The bounds after the fields at the positions `picks` below the sites
/// `upper` have contributed to the implementation of `kind`: every such
/// field in turn, or the sites above them once where no field is shown.
pub open spec fn all_picked_bounds(
    w: WhereClauseView,
    kind: DeriveItemKind,
    entries: Seq<FieldEntryView>,
    picks: Seq<usize>,
    upper: Seq<BoundsView>,
) -> WhereClauseView {
    if picks.len() == 0 {
        level_bounds(w, upper)
    } else {
        picked_bounds(w, kind, entries, picks, upper, picks.len() as int)
    }
}

/// The bounds after the shown fields of the first `n` variants have
/// contributed to the implementation of `Debug`, a variant that shows no
/// field through its own sites.
pub open spec fn debug_variants_bounds(
    w: WhereClauseView,
    variants: Seq<VariantEntryView>,
    plans: Seq<DebugPlanView>,
    h: HelperAttributesView,
    e: DeriveEntryView,
    n: int,
) -> WhereClauseView
    decreases n,
{
    if n <= 0 {
        w
    } else {
        all_picked_bounds(
            debug_variants_bounds(w, variants, plans, h, e, n - 1),
            DeriveItemKind::Debug,
            variants[n - 1].fields,
            plans[n - 1].picks,
            variant_upper(variants[n - 1].hattrs, h, DeriveItemKind::Debug, e),
        )
    }
}

/// The bounds of the implementation of `Debug` for an enum: what the shown
/// fields of its variants contribute, or what is written on the enum
/// itself where it has no variant.
pub open spec fn debug_enum_bounds(
    item: ItemEnumView,
    variants: Seq<VariantEntryView>,
    plans: Seq<DebugPlanView>,
    h: HelperAttributesView,
    e: DeriveEntryView,
) -> WhereClauseView {
    if plans.len() == 0 {
        level_bounds(fresh(item.generics), struct_upper(h, DeriveItemKind::Debug, e))
    } else {
        debug_variants_bounds(fresh(item.generics), variants, plans, h, e, plans.len() as int)
    }
}

/// How the value of the field `e` is written where it is shown: as a
/// reference to the field of the receiver for a struct, as the variable
/// that the pattern binds for a variant.
pub open spec fn debug_value(kind: ItemSourceKind, e: FieldEntryView) -> Seq<char> {
    match kind {
        ItemSourceKind::Struct => Seq::empty() + "&self."@ + member_text(e),
        ItemSourceKind::Enum => binding_text(""@, e),
    }
}

/// `acc` followed by the links of a formatter chain for the fields at the
/// first `n` positions of `picks`, with their names where `fields` is
/// `Named`.
pub open spec fn put_debug_links(
    acc: Seq<char>,
    kind: ItemSourceKind,
    fields: FieldsKind,
    entries: Seq<FieldEntryView>,
    picks: Seq<usize>,
    n: int,
) -> Seq<char>
    decreases n,
{
    if n <= 0 {
        acc
    } else {
        let e = entries[picks[n - 1] as int];
        if fields == FieldsKind::Named {
            put_debug_named_field(
                put_debug_links(acc, kind, fields, entries, picks, n - 1),
                member_text(e),
                debug_value(kind, e),
            )
        } else {
            put_debug_field(
                put_debug_links(acc, kind, fields, entries, picks, n - 1),
                debug_value(kind, e),
            )
        }
    }
}

/// `acc` followed by the expression that shows a struct or a variant named
/// `name`: the transparent field alone, or a formatter chain over the
/// shown fields in order.
pub open spec fn put_debug_expr(
    acc: Seq<char>,
    name: Seq<char>,
    kind: ItemSourceKind,
    fields: FieldsKind,
    entries: Seq<FieldEntryView>,
    plan: DebugPlanView,
) -> Seq<char> {
    if plan.transparent {
        put_debug_transparent(acc, debug_value(kind, entries[plan.picks[0] as int]))
    } else {
        put_debug_links(
            put_debug_open(
                acc,
                if fields == FieldsKind::Named {
                    "debug_struct"@
                } else {
                    "debug_tuple"@
                },
                name,
            ),
            kind,
            fields,
            entries,
            plan.picks,
            plan.picks.len() as int,
        ) + ".finish()"@
    }
}

/// `acc` followed by the arms of `fmt` for the first `n` variants.
pub open spec fn put_debug_arms(
    acc: Seq<char>,
    variants: Seq<VariantEntryView>,
    plans: Seq<DebugPlanView>,
    n: int,
) -> Seq<char>
    decreases n,
{
    if n <= 0 {
        acc
    } else {
        let v = variants[n - 1];
        put_debug_expr(
            put_pattern(put_debug_arms(acc, variants, plans, n - 1), "Self"@, v, ""@) + " => "@,
            v.variant.ident,
            ItemSourceKind::Enum,
            v.variant.kind,
            v.fields,
            plans[n - 1],
        ) + ", "@
    }
}

/// The implementation of `Debug` for a struct, or the fault among the
/// helper attributes of its fields.
pub open spec fn debug_struct_impl(
    item: ItemStructView,
    e: DeriveEntryView,
    h: HelperAttributesView,
    entries: Seq<FieldEntryView>,
) -> Result<Seq<char>, DiagnosticView> {
    match debug_plan_of(entries) {
        Err(d) => Err(d),
        Ok(plan) => Ok(
            put_debug_expr(
                put_where_clause(
                    put_impl_head(
                        Seq::empty(),
                        item.generics,
                        DeriveItemKind::Debug.path(),
                        item.ident,
                    ),
                    all_picked_bounds(
                        fresh(item.generics),
                        DeriveItemKind::Debug,
                        entries,
                        plan.picks,
                        struct_upper(h, DeriveItemKind::Debug, e),
                    ),
                    BoundForm::Plain,
                    DeriveItemKind::Debug.path(),
                )
                    + "{ fn fmt(&self, f: &mut ::core::fmt::Formatter) -> ::core::fmt::Result { "@,
                item.ident,
                ItemSourceKind::Struct,
                item.kind,
                entries,
                plan,
            ) + " } }"@,
        ),
    }
}

/// The implementation of `Debug` for an enum, or the first fault among the
/// helper attributes of its fields.
pub open spec fn debug_enum_impl(
    item: ItemEnumView,
    e: DeriveEntryView,
    h: HelperAttributesView,
    variants: Seq<VariantEntryView>,
) -> Result<Seq<char>, DiagnosticView> {
    match debug_plans_from(variants, 0, Seq::empty()) {
        Err(d) => Err(d),
        Ok(plans) => Ok(
            put_debug_arms(
                put_where_clause(
                    put_impl_head(
                        Seq::empty(),
                        item.generics,
                        DeriveItemKind::Debug.path(),
                        item.ident,
                    ),
                    debug_enum_bounds(item, variants, plans, h, e),
                    BoundForm::Plain,
                    DeriveItemKind::Debug.path(),
                )
                    + "{ fn fmt(&self, f: &mut ::core::fmt::Formatter) -> ::core::fmt::Result { match self { "@,
                variants,
                plans,
                plans.len() as int,
            ) + "} } }"@,
        ),
    }
}

/// Plans how the fields `fields` are shown.
pub fn plan_debug(fields: &Vec<FieldEntry>) -> (r: Result<DebugPlan, Diagnostic>)
    ensures
        match r {
            Ok(p) => debug_plan_of(field_entries_view(fields@)) == Ok::<
                DebugPlanView,
                DiagnosticView,
            >(p@) && debug_plan_fits(p@, fields.len() as int),
            Err(d) => debug_plan_of(field_entries_view(fields@)) == Err::<
                DebugPlanView,
                DiagnosticView,
            >(d@),
        },
{
    let ghost all = field_entries_view(fields@);
    let mut transparent_field: Option<usize> = None;
    let mut i: usize = 0;
    while i < fields.len()
        invariant
            i <= fields.len(),
            all == field_entries_view(fields@),
            transparent_from(all, 0, None) == transparent_from(all, i as int, transparent_field),
            transparent_field matches Some(k) ==> k < fields.len(),
        decreases fields.len() - i,
    {
        assert(all[i as int] == fields@[i as int]@);
        if let Some(span) = fields[i].hattrs.debug.transparent.span {
            if transparent_field.is_some() {
                return Err(
                    Diagnostic {
                        span,
                        message: "only one field can be set `#[debug(transparent)]`".to_owned(),
                    },
                );
            }
            transparent_field = Some(i);
        }
        i = i + 1;
    }
    let mut picks: Vec<usize> = Vec::new();
    if let Some(k) = transparent_field {
        picks.push(k);
        assert(picks@ =~= seq![k]);
        return Ok(DebugPlan { transparent: true, picks });
    }
    let mut j: usize = 0;
    while j < fields.len()
        invariant
            j <= fields.len(),
            all == field_entries_view(fields@),
            picks@ == shown_upto(all, j as int),
            forall|k: int| 0 <= k < picks.len() ==> (#[trigger] picks@[k]) < j,
        decreases fields.len() - j,
    {
        assert(all[j as int] == fields@[j as int]@);
        if !fields[j].hattrs.is_debug_ignore() {
            picks.push(j);
        }
        j = j + 1;
    }
    Ok(DebugPlan { transparent: false, picks })
}

/// Lets the fields at the positions `picks` contribute their bounds to the
/// implementation of `kind`; where there is none, the sites above are
/// scanned once.
pub(crate) fn push_picked_bounds(
    kind: DeriveItemKind,
    entries: &Vec<FieldEntry>,
    picks: &Vec<usize>,
    upper: &Vec<&Bounds>,
    wcb: &mut WhereClauseBuilder,
)
    requires
        forall|j: int| 0 <= j < picks.len() ==> (#[trigger] picks@[j]) < entries.len(),
    ensures
        final(wcb)@ == all_picked_bounds(
            old(wcb)@,
            kind,
            field_entries_view(entries@),
            picks@,
            sites_view(upper@),
        ),
{
    if picks.len() == 0 {
        push_level_bounds(upper, wcb);
        return ;
    }
    let ghost start = wcb@;
    let ghost all = field_entries_view(entries@);
    let mut i: usize = 0;
    while i < picks.len()
        invariant
            i <= picks.len(),
            forall|j: int| 0 <= j < picks.len() ==> (#[trigger] picks@[j]) < entries.len(),
            all == field_entries_view(entries@),
            wcb@ == picked_bounds(start, kind, all, picks@, sites_view(upper@), i as int),
        decreases picks.len() - i,
    {
        let k = picks[i];
        assert(picks@[i as int] < entries.len());
        assert(all[k as int] == entries@[k as int]@);
        entries[k].push_bounds_to(kind, upper, true, wcb);
        i = i + 1;
    }
}

fn debug_value_string(kind: ItemSourceKind, field: &FieldEntry) -> (r: String)
    ensures
        r@ == debug_value(kind, field@),
{
    match kind {
        ItemSourceKind::Struct => {
            let mut s = String::new();
            s.append("&self.");
            let m = field.member();
            s.append(m.as_str());
            s
        },
        ItemSourceKind::Enum => field.make_ident(""),
    }
}

/// Appends to `out` the expression that shows a struct or a variant named
/// `ident`.
pub(crate) fn build_debug_expr(
    out: &mut String,
    ident: &str,
    kind: ItemSourceKind,
    fields_source: FieldsKind,
    fields: &Vec<FieldEntry>,
    plan: &DebugPlan,
)
    requires
        debug_plan_fits(plan@, fields.len() as int),
    ensures
        final(out)@ == put_debug_expr(
            old(out)@,
            ident@,
            kind,
            fields_source,
            field_entries_view(fields@),
            plan@,
        ),
{
    let ghost all = field_entries_view(fields@);
    if plan.transparent {
        let k = plan.picks[0];
        assert(plan@.picks[0] < fields.len());
        assert(all[k as int] == fields@[k as int]@);
        let e = debug_value_string(kind, &fields[k]);
        push_debug_transparent(out, e.as_str());
        return ;
    }
    let is_named = match fields_source {
        FieldsKind::Named => true,
        _ => false,
    };
    if is_named {
        push_debug_open(out, "debug_struct", ident);
    } else {
        push_debug_open(out, "debug_tuple", ident);
    }
    let ghost start = out@;
    let mut i: usize = 0;
    while i < plan.picks.len()
        invariant
            i <= plan.picks.len(),
            debug_plan_fits(plan@, fields.len() as int),
            all == field_entries_view(fields@),
            is_named == (fields_source == FieldsKind::Named),
            out@ == put_debug_links(start, kind, fields_source, all, plan@.picks, i as int),
        decreases plan.picks.len() - i,
    {
        let k = plan.picks[i];
        assert(plan@.picks[i as int] < fields.len());
        assert(all[k as int] == fields@[k as int]@);
        let e = debug_value_string(kind, &fields[k]);
        if is_named {
            let m = fields[k].member();
            push_debug_named_field(out, m.as_str(), e.as_str());
        } else {
            push_debug_field(out, e.as_str());
        }
        i = i + 1;
    }
    out.append(".finish()");
}

/// Builds the implementation of `Debug` for a struct.
pub fn build_debug_for_struct(
    item: &ItemStruct,
    e: &DeriveEntry,
    hattrs: &HelperAttributes,
    fields: &Vec<FieldEntry>,
) -> (r: Result<String, Diagnostic>)
    ensures
        crate::text::code_result_view(r) == debug_struct_impl(
            item@,
            e@,
            hattrs@,
            field_entries_view(fields@),
        ),
{
    let kind = DeriveItemKind::Debug;
    let path = kind.to_path();
    let plan = plan_debug(fields)?;
    let mut wcb = WhereClauseBuilder::new(&item.generics);
    let upper = struct_sites(hattrs, kind, e);
    push_picked_bounds(kind, fields, &plan.picks, &upper, &mut wcb);
    let mut out = String::new();
    build_impl_head(&mut out, &item.generics, path.as_str(), item.ident.as_str());
    wcb.build(&mut out, BoundForm::Plain, path.as_str());
    out.append("{ fn fmt(&self, f: &mut ::core::fmt::Formatter) -> ::core::fmt::Result { ");
    build_debug_expr(
        &mut out,
        item.ident.as_str(),
        ItemSourceKind::Struct,
        item.kind,
        fields,
        &plan,
    );
    out.append(" } }");
    Ok(out)
}

/// Whether `plans` holds a plan for each of `variants` that fits its
/// fields.
pub open spec fn debug_plans_fit(
    plans: Seq<DebugPlanView>,
    variants: Seq<VariantEntryView>,
) -> bool {
    &&& plans.len() == variants.len()
    &&& forall|j: int|
        0 <= j < plans.len() ==> debug_plan_fits(
            #[trigger] plans[j],
            variants[j].fields.len() as int,
        )
}

/// Plans how the fields of each variant are shown.
pub fn plan_debug_variants(variants: &Vec<VariantEntry>) -> (r: Result<Vec<DebugPlan>, Diagnostic>)
    ensures
        match r {
            Ok(ps) => debug_plans_from(variant_entries_view(variants@), 0, Seq::empty()) == Ok::<
                Seq<DebugPlanView>,
                DiagnosticView,
            >(debug_plans_view(ps@)) && debug_plans_fit(
                debug_plans_view(ps@),
                variant_entries_view(variants@),
            ),
            Err(d) => debug_plans_from(variant_entries_view(variants@), 0, Seq::empty()) == Err::<
                Seq<DebugPlanView>,
                DiagnosticView,
            >(d@),
        },
{
    let ghost vs = variant_entries_view(variants@);
    let mut plans: Vec<DebugPlan> = Vec::new();
    assert(debug_plans_view(plans@) =~= Seq::empty());
    let mut i: usize = 0;
    while i < variants.len()
        invariant
            i <= variants.len(),
            plans.len() == i,
            vs == variant_entries_view(variants@),
            debug_plans_from(vs, 0, Seq::empty()) == debug_plans_from(
                vs,
                i as int,
                debug_plans_view(plans@),
            ),
            forall|j: int|
                0 <= j < i ==> debug_plan_fits(
                    #[trigger] debug_plans_view(plans@)[j],
                    vs[j].fields.len() as int,
                ),
        decreases variants.len() - i,
    {
        assert(vs[i as int] == variants@[i as int]@);
        let p = plan_debug(&variants[i].fields)?;
        let ghost before = debug_plans_view(plans@);
        plans.push(p);
        assert(debug_plans_view(plans@) =~= before.push(p@));
        i = i + 1;
    }
    Ok(plans)
}

/// Gathers the bounds of the implementation of `Debug` for an enum.
pub(crate) fn build_debug_enum_bounds(
    item: &ItemEnum,
    variants: &Vec<VariantEntry>,
    plans: &Vec<DebugPlan>,
    hattrs: &HelperAttributes,
    e: &DeriveEntry,
) -> (wcb: WhereClauseBuilder)
    requires
        debug_plans_fit(debug_plans_view(plans@), variant_entries_view(variants@)),
    ensures
        wcb@ == debug_enum_bounds(
            item@,
            variant_entries_view(variants@),
            debug_plans_view(plans@),
            hattrs@,
            e@,
        ),
{
    let kind = DeriveItemKind::Debug;
    let ghost vs = variant_entries_view(variants@);
    let ghost ps = debug_plans_view(plans@);
    let mut wcb = WhereClauseBuilder::new(&item.generics);
    if variants.len() == 0 {
        let upper = struct_sites(hattrs, kind, e);
        push_level_bounds(&upper, &mut wcb);
        return wcb;
    }
    let ghost start = wcb@;
    let mut k: usize = 0;
    while k < variants.len()
        invariant
            k <= variants.len(),
            plans.len() == variants.len(),
            vs == variant_entries_view(variants@),
            ps == debug_plans_view(plans@),
            kind == DeriveItemKind::Debug,
            debug_plans_fit(ps, vs),
            wcb@ == debug_variants_bounds(start, vs, ps, hattrs@, e@, k as int),
        decreases variants.len() - k,
    {
        assert(vs[k as int] == variants@[k as int]@);
        assert(ps[k as int] == plans@[k as int]@);
        assert(debug_plan_fits(ps[k as int], vs[k as int].fields.len() as int));
        assert(vs[k as int].fields.len() == variants@[k as int].fields.len());
        assert forall|j: int| 0 <= j < plans@[k as int].picks@.len() implies (
        #[trigger] plans@[k as int].picks@[j]) < variants@[k as int].fields.len() by {
            assert(ps[k as int].picks[j] < vs[k as int].fields.len());
        }
        let upper = variant_sites(&variants[k].hattrs, hattrs, kind, e);
        push_picked_bounds(kind, &variants[k].fields, &plans[k].picks, &upper, &mut wcb);
        k = k + 1;
    }
    wcb
}

/// Appends to `out` the arms of `fmt` for the variants.
pub(crate) fn build_debug_arms(
    out: &mut String,
    variants: &Vec<VariantEntry>,
    plans: &Vec<DebugPlan>,
)
    requires
        debug_plans_fit(debug_plans_view(plans@), variant_entries_view(variants@)),
    ensures
        final(out)@ == put_debug_arms(
            old(out)@,
            variant_entries_view(variants@),
            debug_plans_view(plans@),
            plans.len() as int,
        ),
{
    let ghost vs = variant_entries_view(variants@);
    let ghost ps = debug_plans_view(plans@);
    let ghost mid = out@;
    let mut m: usize = 0;
    while m < variants.len()
        invariant
            m <= variants.len(),
            plans.len() == variants.len(),
            vs == variant_entries_view(variants@),
            ps == debug_plans_view(plans@),
            debug_plans_fit(ps, vs),
            out@ == put_debug_arms(mid, vs, ps, m as int),
        decreases variants.len() - m,
    {
        assert(vs[m as int] == variants@[m as int]@);
        assert(ps[m as int] == plans@[m as int]@);
        assert(debug_plan_fits(ps[m as int], vs[m as int].fields.len() as int));
        assert(vs[m as int].fields.len() == variants@[m as int].fields.len());
        let v = &variants[m];
        v.make_pat(out, "");
        out.append(" => ");
        build_debug_expr(
            out,
            v.variant.ident.as_str(),
            ItemSourceKind::Enum,
            v.variant.kind,
            &v.fields,
            &plans[m],
        );
        out.append(", ");
        m = m + 1;
    }
}

/// Builds the implementation of `Debug` for an enum.
pub fn build_debug_for_enum(
    item: &ItemEnum,
    e: &DeriveEntry,
    hattrs: &HelperAttributes,
    variants: &Vec<VariantEntry>,
) -> (r: Result<String, Diagnostic>)
    ensures
        crate::text::code_result_view(r) == debug_enum_impl(
            item@,
            e@,
            hattrs@,
            variant_entries_view(variants@),
        ),
{
    let kind = DeriveItemKind::Debug;
    let path = kind.to_path();
    let plans = plan_debug_variants(variants)?;
    let wcb = build_debug_enum_bounds(item, variants, &plans, hattrs, e);
    let mut out = String::new();
    build_impl_head(&mut out, &item.generics, path.as_str(), item.ident.as_str());
    wcb.build(&mut out, BoundForm::Plain, path.as_str());
    out.append(
        "{ fn fmt(&self, f: &mut ::core::fmt::Formatter) -> ::core::fmt::Result { match self { ",
    );
    build_debug_arms(&mut out, variants, &plans);
    out.append("} } }");
    Ok(out)
}

} // verus!
