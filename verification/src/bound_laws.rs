//! What the resolution of bounds guarantees, for every list of sites.

use vstd::prelude::*;
use crate::bound::{
    added, holds_fragment, inherit, pushed, put_type_predicate, resolved, scanned, scanned_upto,
    BoundForm, BoundsView, WhereClauseView,
};
use crate::generics::{mentions, TypeExprView};
use crate::resolve::level_bounds;
use crate::text::render;

verus! {

/// Whether every site of `sites` says nothing.
pub open spec fn all_silent(sites: Seq<BoundsView>) -> bool {
    forall|i: int| 0 <= i < sites.len() ==> #[trigger] sites[i] == inherit()
}

/// Sites that say nothing change nothing: the bounds stay as they are, and
/// the scan stays as open as it was.
pub proof fn lemma_silent_sites_change_nothing(
    w: WhereClauseView,
    open: bool,
    sites: Seq<BoundsView>,
    n: int,
)
    requires
        0 <= n <= sites.len(),
        all_silent(sites),
    ensures
        scanned_upto(w, open, sites, n) == (w, open),
    decreases n,
{
    if n > 0 {
        lemma_silent_sites_change_nothing(w, open, sites, n - 1);
        assert(sites[n - 1] == inherit());
    }
}

/// A field that no site speaks for, and whose type mentions a parameter of
/// the item, has its own type bounded: the type as it is written joins the
/// bounded types, and nothing else changes.
pub proof fn lemma_unspoken_field_bounds_its_type(
    w: WhereClauseView,
    sites: Seq<BoundsView>,
    ty: TypeExprView,
)
    requires
        all_silent(sites),
        mentions(w.params, ty.path_heads),
    ensures
        resolved(w, sites, true, ty) == (WhereClauseView {
            types: added(w.types, ty.tokens),
            ..w
        }),
        holds_fragment(resolved(w, sites, true, ty).types, ty.tokens),
{
    lemma_silent_sites_change_nothing(w, true, sites, sites.len() as int);
    if !holds_fragment(w.types, ty.tokens) {
        let t = w.types.push(ty.tokens);
        assert(t[w.types.len() as int].tokens == ty.tokens.tokens);
    }
}

/// A field that no site speaks for, and whose type mentions no parameter
/// of the item, needs no bound.
pub proof fn lemma_concrete_field_needs_no_bound(
    w: WhereClauseView,
    sites: Seq<BoundsView>,
    ty: TypeExprView,
)
    requires
        all_silent(sites),
        !mentions(w.params, ty.path_heads),
    ensures
        resolved(w, sites, true, ty) == w,
{
    lemma_silent_sites_change_nothing(w, true, sites, sites.len() as int);
}

/// The bound on a type is the bound on the type as it is written: the
/// predicate starts with the type's own text.
pub proof fn lemma_plain_bound_names_the_type(acc: Seq<char>, ty: TypeExprView, path: Seq<char>)
    ensures
        put_type_predicate(acc, BoundForm::Plain, render(ty.tokens.tokens), path) == acc + render(
            ty.tokens.tokens,
        ) + ": "@ + path,
{
}

/// Once the scan is closed, no site contributes.
pub proof fn lemma_closed_scan_ignores_sites(w: WhereClauseView, sites: Seq<BoundsView>, n: int)
    requires
        0 <= n <= sites.len(),
    ensures
        scanned_upto(w, false, sites, n) == (w, false),
    decreases n,
{
    if n > 0 {
        lemma_closed_scan_ignores_sites(w, sites, n - 1);
    }
}

/// The scan of the first `n` sites depends on those sites alone.
pub proof fn lemma_scan_of_prefix(
    w: WhereClauseView,
    open: bool,
    sites: Seq<BoundsView>,
    k: int,
    n: int,
)
    requires
        0 <= n <= k <= sites.len(),
    ensures
        scanned_upto(w, open, sites.take(k), n) == scanned_upto(w, open, sites, n),
    decreases n,
{
    if n > 0 {
        lemma_scan_of_prefix(w, open, sites, k, n - 1);
        assert(sites.take(k)[n - 1] == sites[n - 1]);
    }
}

/// After a site that does not defer, the scan is closed for good.
pub proof fn lemma_scan_stays_closed(
    w: WhereClauseView,
    sites: Seq<BoundsView>,
    k: int,
    n: int,
)
    requires
        0 <= k < n <= sites.len(),
        !scanned_upto(w, true, sites, k + 1).1,
    ensures
        scanned_upto(w, true, sites, n) == scanned_upto(w, true, sites, k + 1),
    decreases n,
{
    if n > k + 1 {
        lemma_scan_stays_closed(w, sites, k, n - 1);
    }
}

/// The sites are consulted strictly by priority: the first site that does
/// not defer ends the scan, the sites of lower priority contribute
/// nothing, and the field's own type is not bounded.
pub proof fn lemma_first_closed_site_decides(
    w: WhereClauseView,
    sites: Seq<BoundsView>,
    auto: bool,
    ty: TypeExprView,
    k: int,
)
    requires
        0 <= k < sites.len(),
        !sites[k].can_extend,
    ensures
        resolved(w, sites, auto, ty) == scanned(w, true, sites.take(k + 1)).0,
        !scanned(w, true, sites).1,
{
    let (w0, open0) = scanned_upto(w, true, sites, k);
    assert(!scanned_upto(w, true, sites, k + 1).1);
    lemma_scan_stays_closed(w, sites, k, sites.len() as int);
    lemma_scan_of_prefix(w, true, sites, k + 1, k + 1);
}

/// A site written as `bound()` at the highest priority leaves a field
/// without any bound.
pub proof fn lemma_empty_bound_suppresses_all(
    w: WhereClauseView,
    sites: Seq<BoundsView>,
    auto: bool,
    ty: TypeExprView,
)
    requires
        sites.len() > 0,
        sites[0] == (BoundsView { ty: Seq::empty(), pred: Seq::empty(), can_extend: false }),
    ensures
        resolved(w, sites, auto, ty) == w,
{
    lemma_first_closed_site_decides(w, sites, auto, ty, 0);
    assert(scanned_upto(w, true, sites.take(1), 0) == (w, true));
    assert(sites.take(1)[0] == sites[0]);
}

/// What is written for an item without fields reaches its bounds: where
/// the sites before the site `k` say nothing and the site `k` does not
/// defer, the bounds are those that the site `k` adds.
pub proof fn lemma_fieldless_level_is_bounded_as_written(
    w: WhereClauseView,
    upper: Seq<BoundsView>,
    k: int,
)
    requires
        0 <= k < upper.len(),
        all_silent(upper.take(k)),
        !upper[k].can_extend,
    ensures
        level_bounds(w, upper) == pushed(w, upper[k]),
{
    lemma_silent_sites_change_nothing(w, true, upper.take(k), k);
    lemma_scan_of_prefix(w, true, upper, k, k);
    assert(scanned_upto(w, true, upper, k + 1) == (pushed(w, upper[k]), false));
    if k + 1 < upper.len() {
        lemma_scan_stays_closed(w, upper, k, upper.len() as int);
    }
}

} // verus!
