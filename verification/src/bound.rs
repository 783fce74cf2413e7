//! The `where` clause of a generated implementation: what each annotation
//! site asks for, and how the sites of a field are resolved into bounds.

use vstd::prelude::*;
use crate::generics::{
    mentions, param_names, GenericParamSet, Generics, GenericsView, TypeExpr, TypeExprView,
};
use crate::text::{
    clone_fragment, fragments_view, push_fragment, render, str_eq, tokens_view, Fragment,
    FragmentView, Token,
};

verus! {

/// One argument of `bound(...)`.
pub enum Bound {
    /// A type: it must implement the trait that is generated.
    Type(Fragment),
    /// A predicate, used as it is written.
    Pred(Fragment),
    /// `..`: the sites of lower priority are used as well.
    Default,
}

/// The mathematical value of a [`Bound`].
pub enum BoundView {
    Type(FragmentView),
    Pred(FragmentView),
    Default,
}

impl View for Bound {
    type V = BoundView;

    open spec fn view(&self) -> BoundView {
        match self {
            Bound::Type(f) => BoundView::Type(f@),
            Bound::Pred(f) => BoundView::Pred(f@),
            Bound::Default => BoundView::Default,
        }
    }
}

/// The values of an optional list of `bound(...)` arguments.
pub open spec fn bound_args_view(arg: Option<Vec<Bound>>) -> Option<Seq<BoundView>> {
    match arg {
        Some(list) => Some(list@.map_values(|b: Bound| b@)),
        None => None,
    }
}

/// What one annotation site says about the bounds of one trait.
///
/// A site that says nothing has no types, no predicates and `can_extend`
/// set: it defers to the sites of lower priority. A site that was written
/// as `bound()` has neither types nor predicates either, but `can_extend`
/// is not set: it asks for no bound at all.
pub struct Bounds {
    /// The types that must implement the trait.
    pub ty: Vec<Fragment>,
    /// The predicates to use as they are.
    pub pred: Vec<Fragment>,
    /// Whether the sites of lower priority are consulted after this one.
    pub can_extend: bool,
}

/// The mathematical value of [`Bounds`].
pub struct BoundsView {
    pub ty: Seq<FragmentView>,
    pub pred: Seq<FragmentView>,
    pub can_extend: bool,
}

impl View for Bounds {
    type V = BoundsView;

    open spec fn view(&self) -> BoundsView {
        BoundsView {
            ty: fragments_view(self.ty@),
            pred: fragments_view(self.pred@),
            can_extend: self.can_extend,
        }
    }
}

/// The values of a list of sites.
pub open spec fn sites_view(sites: Seq<&Bounds>) -> Seq<BoundsView> {
    sites.map_values(|b: &Bounds| b@)
}

/// The site that says nothing.
pub open spec fn inherit() -> BoundsView {
    BoundsView { ty: Seq::empty(), pred: Seq::empty(), can_extend: true }
}

/// The first `n` arguments of `bound(...)`, read one after the other into
/// a site that starts out saying `bound()`.
pub open spec fn bounds_upto(list: Seq<BoundView>, n: int) -> BoundsView
    decreases n,
{
    if n <= 0 {
        BoundsView { ty: Seq::empty(), pred: Seq::empty(), can_extend: false }
    } else {
        let b = bounds_upto(list, n - 1);
        match list[n - 1] {
            BoundView::Type(f) => BoundsView { ty: b.ty.push(f), ..b },
            BoundView::Pred(f) => BoundsView { pred: b.pred.push(f), ..b },
            BoundView::Default => BoundsView { can_extend: true, ..b },
        }
    }
}

/// What a site says, given the `bound(...)` written there, if any.
pub open spec fn bounds_of(arg: Option<Seq<BoundView>>) -> BoundsView {
    match arg {
        None => inherit(),
        Some(list) => bounds_upto(list, list.len() as int),
    }
}

impl Bounds {
    /// The site that says nothing.
    pub fn new() -> (r: Self)
        ensures
            r@ == inherit(),
    {
        let r = Bounds { ty: Vec::new(), pred: Vec::new(), can_extend: true };
        assert(r@.ty =~= Seq::empty());
        assert(r@.pred =~= Seq::empty());
        r
    }

    /// Reads what a site says from the `bound(...)` written there, if any.
    pub fn from(value: &Option<Vec<Bound>>) -> (r: Self)
        ensures
            r@ == bounds_of(bound_args_view(*value)),
    {
        match value {
            None => Self::new(),
            Some(list) => {
                let ghost all = list@.map_values(|b: Bound| b@);
                let mut r = Bounds { ty: Vec::new(), pred: Vec::new(), can_extend: false };
                assert(r@.ty =~= Seq::empty());
                assert(r@.pred =~= Seq::empty());
                let mut i: usize = 0;
                while i < list.len()
                    invariant
                        i <= list.len(),
                        all == list@.map_values(|b: Bound| b@),
                        r@ == bounds_upto(all, i as int),
                    decreases list.len() - i,
                {
                    let ghost before = r@;
                    assert(all[i as int] == list@[i as int]@);
                    match &list[i] {
                        Bound::Type(f) => {
                            let c = clone_fragment(f);
                            r.ty.push(c);
                            assert(r@.ty =~= before.ty.push(f@));
                        },
                        Bound::Pred(f) => {
                            let c = clone_fragment(f);
                            r.pred.push(c);
                            assert(r@.pred =~= before.pred.push(f@));
                        },
                        Bound::Default => {
                            r.can_extend = true;
                        },
                    }
                    i = i + 1;
                }
                r
            },
        }
    }
}

/// Appends copies of the fragments of `src` to `dst`.
pub fn extend_fragments(dst: &mut Vec<Fragment>, src: &Vec<Fragment>)
    ensures
        fragments_view(final(dst)@) == fragments_view(old(dst)@) + fragments_view(src@),
{
    let ghost start = fragments_view(dst@);
    let mut i: usize = 0;
    assert(start + fragments_view(src@).take(0) =~= start);
    while i < src.len()
        invariant
            i <= src.len(),
            fragments_view(dst@) == start + fragments_view(src@).take(i as int),
        decreases src.len() - i,
    {
        let f = clone_fragment(&src[i]);
        let ghost before = fragments_view(dst@);
        dst.push(f);
        assert(fragments_view(dst@) =~= before.push(f@));
        assert(fragments_view(src@).take(i as int + 1) =~= fragments_view(src@).take(
            i as int,
        ).push(src@[i as int]@));
        i = i + 1;
    }
    assert(fragments_view(src@).take(src.len() as int) =~= fragments_view(src@));
}

/// Whether two runs of tokens are the same.
pub fn tokens_eq(a: &Vec<Token>, b: &Vec<Token>) -> (r: bool)
    ensures
        r == (tokens_view(a@) == tokens_view(b@)),
{
    if a.len() != b.len() {
        assert(tokens_view(a@).len() != tokens_view(b@).len());
        return false;
    }
    let mut i: usize = 0;
    while i < a.len()
        invariant
            i <= a.len(),
            a.len() == b.len(),
            forall|j: int| 0 <= j < i ==> a@[j]@ == b@[j]@,
        decreases a.len() - i,
    {
        if a[i].glued != b[i].glued || !str_eq(a[i].text.as_str(), b[i].text.as_str()) {
            assert(tokens_view(a@)[i as int] == a@[i as int]@);
            assert(tokens_view(b@)[i as int] == b@[i as int]@);
            return false;
        }
        i = i + 1;
    }
    assert(tokens_view(a@) =~= tokens_view(b@));
    true
}

/// Whether `list` holds a fragment with the tokens of `f`.
pub fn contains_fragment(list: &Vec<Fragment>, f: &Fragment) -> (r: bool)
    ensures
        r == holds_fragment(fragments_view(list@), f@),
{
    let mut i: usize = 0;
    while i < list.len()
        invariant
            i <= list.len(),
            forall|j: int| 0 <= j < i ==> list@[j]@.tokens != f@.tokens,
        decreases list.len() - i,
    {
        if tokens_eq(&list[i].tokens, &f.tokens) {
            assert(fragments_view(list@)[i as int] == list@[i as int]@);
            return true;
        }
        i = i + 1;
    }
    assert forall|j: int| 0 <= j < fragments_view(list@).len() implies (#[trigger] fragments_view(
        list@,
    )[j]).tokens != f@.tokens by {
        assert(fragments_view(list@)[j] == list@[j]@);
    }
    false
}

/// Puts a copy of `f` at the end of `list`, unless `list` holds a fragment
/// with the same tokens already.
pub fn add_fragment(list: &mut Vec<Fragment>, f: &Fragment)
    ensures
        fragments_view(final(list)@) == added(fragments_view(old(list)@), f@),
{
    if !contains_fragment(list, f) {
        let ghost before = fragments_view(list@);
        let c = clone_fragment(f);
        list.push(c);
        assert(fragments_view(list@) =~= before.push(f@));
    }
}

/// Adds copies of the fragments of `fs` to `list`, one after the other.
pub fn add_fragments(list: &mut Vec<Fragment>, fs: &Vec<Fragment>)
    ensures
        fragments_view(final(list)@) == added_all(
            fragments_view(old(list)@),
            fragments_view(fs@),
            fs.len() as int,
        ),
{
    let ghost start = fragments_view(list@);
    let ghost all = fragments_view(fs@);
    let mut i: usize = 0;
    while i < fs.len()
        invariant
            i <= fs.len(),
            all == fragments_view(fs@),
            fragments_view(list@) == added_all(start, all, i as int),
        decreases fs.len() - i,
    {
        assert(all[i as int] == fs@[i as int]@);
        add_fragment(list, &fs[i]);
        i = i + 1;
    }
}

/// How the bound on a type is phrased for the implementation at hand.
#[derive(Debug, Copy, Clone, Eq, PartialEq, Structural)]
pub enum BoundForm {
    /// `T: Trait`.
    Plain,
    /// A binary operator, for each side taken by value or by reference.
    Binary { lhs_ref: bool, rhs_ref: bool },
    /// An assigning operator, with the right side by value or by reference.
    Assign { rhs_ref: bool },
    /// A unary operator, with the operand by value or by reference.
    Unary { lhs_ref: bool },
}

/// `acc` followed by the predicate that asks the type written `ty` for the
/// trait at `path`, phrased as `form` says.
pub open spec fn put_type_predicate(
    acc: Seq<char>,
    form: BoundForm,
    ty: Seq<char>,
    path: Seq<char>,
) -> Seq<char> {
    match form {
        BoundForm::Plain => acc + ty + ": "@ + path,
        BoundForm::Binary { lhs_ref: true, rhs_ref: true } => acc + "for<'a> &'a "@ + ty + ": "@
            + path + "<&'a "@ + ty + ", Output = "@ + ty + ">"@,
        BoundForm::Binary { lhs_ref: true, rhs_ref: false } => acc + "for<'a> &'a "@ + ty
            + ": "@ + path + "<"@ + ty + ", Output = "@ + ty + ">"@,
        BoundForm::Binary { lhs_ref: false, rhs_ref: true } => acc + "for<'a> "@ + ty + ": "@
            + path + "<&'a "@ + ty + ", Output = "@ + ty + ">"@,
        BoundForm::Binary { lhs_ref: false, rhs_ref: false } => acc + ty + ": "@ + path + "<"@
            + ty + ", Output = "@ + ty + ">"@,
        BoundForm::Assign { rhs_ref: true } => acc + "for<'a> "@ + ty + ": "@ + path + "<&'a "@
            + ty + ">"@,
        BoundForm::Assign { rhs_ref: false } => acc + ty + ": "@ + path + "<"@ + ty + ">"@,
        BoundForm::Unary { lhs_ref: true } => acc + "for<'a> &'a "@ + ty + ": "@ + path
            + "<Output = "@ + ty + ">"@,
        BoundForm::Unary { lhs_ref: false } => acc + ty + ": "@ + path + "<Output = "@ + ty
            + ">"@,
    }
}

/// Appends to `out` the predicate that asks the type written `ty` for the
/// trait at `path`.
pub fn push_type_predicate(out: &mut String, form: BoundForm, ty: &str, path: &str)
    ensures
        final(out)@ == put_type_predicate(old(out)@, form, ty@, path@),
{
    match form {
        BoundForm::Plain => {
            out.append(ty);
            out.append(": ");
            out.append(path);
        },
        BoundForm::Binary { lhs_ref, rhs_ref } => {
            if lhs_ref {
                out.append("for<'a> &'a ");
            } else if rhs_ref {
                out.append("for<'a> ");
            }
            out.append(ty);
            out.append(": ");
            out.append(path);
            if rhs_ref {
                out.append("<&'a ");
            } else {
                out.append("<");
            }
            out.append(ty);
            out.append(", Output = ");
            out.append(ty);
            out.append(">");
        },
        BoundForm::Assign { rhs_ref } => {
            if rhs_ref {
                out.append("for<'a> ");
            }
            out.append(ty);
            out.append(": ");
            out.append(path);
            if rhs_ref {
                out.append("<&'a ");
            } else {
                out.append("<");
            }
            out.append(ty);
            out.append(">");
        },
        BoundForm::Unary { lhs_ref } => {
            if lhs_ref {
                out.append("for<'a> &'a ");
            }
            out.append(ty);
            out.append(": ");
            out.append(path);
            out.append("<Output = ");
            out.append(ty);
            out.append(">");
        },
    }
}

/// The bounds gathered so far for one implementation.
pub struct WhereClauseBuilder {
    /// The types that must implement the trait.
    pub types: Vec<Fragment>,
    /// The predicates to use as they are; the item's own come first.
    pub preds: Vec<Fragment>,
    /// The item's type and const parameters.
    pub gps: GenericParamSet,
}

/// The mathematical value of a [`WhereClauseBuilder`].
pub struct WhereClauseView {
    pub types: Seq<FragmentView>,
    pub preds: Seq<FragmentView>,
    pub params: Seq<Seq<char>>,
}

impl View for WhereClauseBuilder {
    type V = WhereClauseView;

    open spec fn view(&self) -> WhereClauseView {
        WhereClauseView {
            types: fragments_view(self.types@),
            preds: fragments_view(self.preds@),
            params: self.gps@,
        }
    }
}

/// The builder for an item with the generics `g`: no type is bounded yet,
/// and the predicates are those of the item.
pub open spec fn fresh(g: GenericsView) -> WhereClauseView {
    WhereClauseView {
        types: Seq::empty(),
        preds: g.where_predicates,
        params: param_names(g.params),
    }
}

/// Whether `list` holds a fragment with the tokens of `f`.
pub open spec fn holds_fragment(list: Seq<FragmentView>, f: FragmentView) -> bool {
    exists|i: int| 0 <= i < list.len() && (#[trigger] list[i]).tokens == f.tokens
}

/// `list` with `f` at its end, unless it holds a fragment with the same
/// tokens already.
pub open spec fn added(list: Seq<FragmentView>, f: FragmentView) -> Seq<FragmentView> {
    if holds_fragment(list, f) {
        list
    } else {
        list.push(f)
    }
}

/// `list` with the first `n` of `fs` added one after the other.
pub open spec fn added_all(list: Seq<FragmentView>, fs: Seq<FragmentView>, n: int) -> Seq<
    FragmentView,
>
    decreases n,
{
    if n <= 0 {
        list
    } else {
        added(added_all(list, fs, n - 1), fs[n - 1])
    }
}

/// `w` after a site has contributed what it says: its types and its
/// predicates join those that `w` holds, each only once.
pub open spec fn pushed(w: WhereClauseView, b: BoundsView) -> WhereClauseView {
    WhereClauseView {
        types: added_all(w.types, b.ty, b.ty.len() as int),
        preds: added_all(w.preds, b.pred, b.pred.len() as int),
        params: w.params,
    }
}

/// `w` after the bound on a field of type `ty` that no site has spoken for:
/// the field's own type is bounded where it mentions a parameter of the
/// item, and nothing is where it does not.
pub open spec fn pushed_for_field(w: WhereClauseView, ty: TypeExprView) -> WhereClauseView {
    if mentions(w.params, ty.path_heads) {
        WhereClauseView { types: added(w.types, ty.tokens), ..w }
    } else {
        w
    }
}

/// The builder, and whether the scan is still open, after the first `n`
/// of `sites` were consulted from the highest priority down, starting from
/// `w` and `open`.
///
/// A site is consulted only while the scan is open. It contributes what it
/// says, and the scan stays open only if the site defers.
pub open spec fn scanned_upto(
    w: WhereClauseView,
    open: bool,
    sites: Seq<BoundsView>,
    n: int,
) -> (WhereClauseView, bool)
    decreases n,
{
    if n <= 0 {
        (w, open)
    } else {
        let (w0, open0) = scanned_upto(w, open, sites, n - 1);
        if open0 {
            (pushed(w0, sites[n - 1]), sites[n - 1].can_extend)
        } else {
            (w0, false)
        }
    }
}

/// The builder and the state of the scan after all of `sites` were
/// consulted.
pub open spec fn scanned(w: WhereClauseView, open: bool, sites: Seq<BoundsView>) -> (
    WhereClauseView,
    bool,
) {
    scanned_upto(w, open, sites, sites.len() as int)
}

/// The bounds of one field: its sites are scanned from the highest
/// priority down; where every site defers and `auto` is set, the field's
/// own type is bounded.
pub open spec fn resolved(
    w: WhereClauseView,
    sites: Seq<BoundsView>,
    auto: bool,
    ty: TypeExprView,
) -> WhereClauseView {
    let (w1, open) = scanned(w, true, sites);
    if open && auto {
        pushed_for_field(w1, ty)
    } else {
        w1
    }
}

/// `acc` followed by the predicates for the first `n` of `types`, each
/// with a comma.
pub open spec fn put_type_predicates(
    acc: Seq<char>,
    types: Seq<FragmentView>,
    form: BoundForm,
    path: Seq<char>,
    n: int,
) -> Seq<char>
    decreases n,
{
    if n <= 0 {
        acc
    } else {
        put_type_predicate(
            put_type_predicates(acc, types, form, path, n - 1),
            form,
            render(types[n - 1].tokens),
            path,
        ) + ", "@
    }
}

/// `acc` followed by the first `n` of `preds`, each with a comma.
pub open spec fn put_predicates(acc: Seq<char>, preds: Seq<FragmentView>, n: int) -> Seq<char>
    decreases n,
{
    if n <= 0 {
        acc
    } else {
        put_predicates(acc, preds, n - 1) + render(preds[n - 1].tokens) + ", "@
    }
}

/// `acc` followed by the `where` clause that `w` stands for: nothing where
/// `w` holds no bound; otherwise `where`, the bounds on the types, then the
/// predicates.
pub open spec fn put_where_clause(
    acc: Seq<char>,
    w: WhereClauseView,
    form: BoundForm,
    path: Seq<char>,
) -> Seq<char> {
    if w.types.len() == 0 && w.preds.len() == 0 {
        acc
    } else {
        put_predicates(
            put_type_predicates(acc + "where "@, w.types, form, path, w.types.len() as int),
            w.preds,
            w.preds.len() as int,
        )
    }
}

impl WhereClauseBuilder {
    /// Starts the bounds of an implementation for an item with the given
    /// generics.
    pub fn new(generics: &Generics) -> (r: Self)
        ensures
            r@ == fresh(generics@),
    {
        let mut preds: Vec<Fragment> = Vec::new();
        assert(fragments_view(preds@) =~= Seq::empty());
        extend_fragments(&mut preds, &generics.where_predicates);
        assert(fragments_view(preds@) =~= generics@.where_predicates);
        let r = Self { types: Vec::new(), preds, gps: GenericParamSet::new(generics) };
        assert(r@.types =~= Seq::empty());
        r
    }

    /// Lets a site contribute what it says, and tells whether it defers to
    /// the sites of lower priority.
    pub fn push_bounds(&mut self, bounds: &Bounds) -> (r: bool)
        ensures
            final(self)@ == pushed(old(self)@, bounds@),
            r == bounds@.can_extend,
    {
        add_fragments(&mut self.preds, &bounds.pred);
        add_fragments(&mut self.types, &bounds.ty);
        bounds.can_extend
    }

    /// Bounds the type of a field that no site has spoken for, where it
    /// mentions a parameter of the item.
    pub fn push_bounds_for_field(&mut self, ty: &TypeExpr)
        ensures
            final(self)@ == pushed_for_field(old(self)@, ty@),
    {
        if self.gps.contains_in_type(ty) {
            add_fragment(&mut self.types, &ty.tokens);
        }
    }

    /// Consults `sites` from the highest priority down, starting with the
    /// scan open or not as `open` says, and tells whether the scan is still
    /// open at the end.
    pub fn scan(&mut self, open: bool, sites: &Vec<&Bounds>) -> (r: bool)
        ensures
            (final(self)@, r) == scanned(old(self)@, open, sites_view(sites@)),
    {
        let ghost start = self@;
        let ghost first = open;
        let ghost all = sites_view(sites@);
        let mut open = open;
        let mut i: usize = 0;
        while i < sites.len()
            invariant
                i <= sites.len(),
                all == sites_view(sites@),
                (self@, open) == scanned_upto(start, first, all, i as int),
            decreases sites.len() - i,
        {
            assert(all[i as int] == sites@[i as int]@);
            if open {
                open = self.push_bounds(sites[i]);
            }
            i = i + 1;
        }
        open
    }

    /// Resolves the bounds of one field of type `ty` from its sites.
    pub fn resolve(&mut self, sites: &Vec<&Bounds>, auto: bool, ty: &TypeExpr)
        ensures
            final(self)@ == resolved(old(self)@, sites_view(sites@), auto, ty@),
    {
        let open = self.scan(true, sites);
        if open && auto {
            self.push_bounds_for_field(ty);
        }
    }

    /// Appends the `where` clause to `out`.
    pub fn build(&self, out: &mut String, form: BoundForm, path: &str)
        ensures
            final(out)@ == put_where_clause(old(out)@, self@, form, path@),
    {
        if self.types.len() == 0 && self.preds.len() == 0 {
            return ;
        }
        out.append("where ");
        let ghost start = out@;
        let mut i: usize = 0;
        while i < self.types.len()
            invariant
                i <= self.types.len(),
                out@ == put_type_predicates(start, self@.types, form, path@, i as int),
            decreases self.types.len() - i,
        {
            let ty = crate::text::render_tokens(&self.types[i].tokens);
            assert(self@.types[i as int] == self.types@[i as int]@);
            push_type_predicate(out, form, ty.as_str(), path);
            out.append(", ");
            i = i + 1;
        }
        let ghost mid = out@;
        let mut k: usize = 0;
        while k < self.preds.len()
            invariant
                k <= self.preds.len(),
                out@ == put_predicates(mid, self@.preds, k as int),
            decreases self.preds.len() - k,
        {
            assert(self@.preds[k as int] == self.preds@[k as int]@);
            push_fragment(out, &self.preds[k]);
            out.append(", ");
            k = k + 1;
        }
    }
}

} // verus!
