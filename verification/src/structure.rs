//! What the synthesized implementations of `Clone` and `Default` compute,
//! and what follows for every type and every value.
//!
//! A value of a struct or of a variant is seen here as the values of its
//! fields, by position.

use vstd::prelude::*;
use crate::derive_default::{
    default_value_text, default_values, default_variant, explicit_default, marked_upto,
};
use crate::item::{member_text, type_text, FieldEntryView, VariantEntryView};
use crate::item_type::clone_values;
use crate::site::put_default_value;
use crate::structural_text::{put_clone_arg, put_default_arg};
use crate::text::DiagnosticView;

verus! {

/// What `clone` builds from the fields `a` of a struct or a variant with
/// `n` fields: the clone of every field, as `clone_of` gives it for each
/// position.
pub open spec fn cloned_fields<V>(n: nat, clone_of: spec_fn(int, V) -> V, a: Seq<V>) -> Seq<V> {
    Seq::new(n, |i: int| clone_of(i, a[i]))
}

/// What `clone_from` leaves in the fields `b` of the receiver when the
/// source has the fields `a`: for every position, what `clone_from_of`
/// makes of the receiver's field and the source's.
pub open spec fn clone_from_fields<V>(
    n: nat,
    clone_from_of: spec_fn(int, V, V) -> V,
    b: Seq<V>,
    a: Seq<V>,
) -> Seq<V> {
    Seq::new(n, |i: int| clone_from_of(i, b[i], a[i]))
}

/// A value of an enum: the position of its variant and the values of its
/// fields.
pub struct EnumValue<V> {
    pub variant: int,
    pub fields: Seq<V>,
}

/// What `clone` builds from a value of an enum: the same variant, with
/// the clone of every field.
pub open spec fn cloned_enum<V>(clone_of: spec_fn(int, V) -> V, a: EnumValue<V>) -> EnumValue<V> {
    EnumValue { variant: a.variant, fields: cloned_fields(a.fields.len(), clone_of, a.fields) }
}

/// What `clone_from` leaves in the receiver `b` when the source is `a`:
/// two values of one variant are cloned field into field, and otherwise
/// the receiver becomes a clone of the source as a whole.
pub open spec fn clone_from_enum<V>(
    clone_of: spec_fn(int, V) -> V,
    clone_from_of: spec_fn(int, V, V) -> V,
    b: EnumValue<V>,
    a: EnumValue<V>,
) -> EnumValue<V> {
    if b.variant == a.variant {
        EnumValue {
            variant: b.variant,
            fields: clone_from_fields(a.fields.len(), clone_from_of, b.fields, a.fields),
        }
    } else {
        cloned_enum(clone_of, a)
    }
}

/// `clone` clones every field once, in declaration order.
pub proof fn lemma_clone_covers_every_field(entries: Seq<FieldEntryView>, i: int)
    requires
        0 <= i < entries.len(),
    ensures
        clone_values(entries).len() == entries.len(),
        clone_values(entries)[i] == put_clone_arg(
            Seq::empty(),
            type_text(entries[i]),
            member_text(entries[i]),
        ),
{
}

/// Where the clone of every field equals the field, the clone of a value
/// equals the value.
pub proof fn lemma_clone_equals_value<V>(clone_of: spec_fn(int, V) -> V, a: Seq<V>)
    requires
        forall|i: int| 0 <= i < a.len() ==> #[trigger] clone_of(i, a[i]) == a[i],
    ensures
        cloned_fields(a.len(), clone_of, a) == a,
{
    assert(cloned_fields(a.len(), clone_of, a) =~= a);
}

/// Where `clone_from` makes every field equal to the source's, it makes
/// the receiver equal to the source.
pub proof fn lemma_clone_from_equals_source<V>(
    clone_from_of: spec_fn(int, V, V) -> V,
    b: Seq<V>,
    a: Seq<V>,
)
    requires
        forall|i: int| 0 <= i < a.len() ==> #[trigger] clone_from_of(i, b[i], a[i]) == a[i],
    ensures
        clone_from_fields(a.len(), clone_from_of, b, a) == a,
{
    assert(clone_from_fields(a.len(), clone_from_of, b, a) =~= a);
}

/// For an enum too, the clone of a value equals the value, and
/// `clone_from` makes the receiver equal to the source, whether the two
/// are of one variant or not.
pub proof fn lemma_enum_clone_equals_value<V>(
    clone_of: spec_fn(int, V) -> V,
    clone_from_of: spec_fn(int, V, V) -> V,
    b: EnumValue<V>,
    a: EnumValue<V>,
)
    requires
        forall|i: int|
            0 <= i < a.fields.len() ==> #[trigger] clone_of(i, a.fields[i]) == a.fields[i],
        forall|i: int|
            0 <= i < a.fields.len() ==> #[trigger] clone_from_of(i, b.fields[i], a.fields[i])
                == a.fields[i],
    ensures
        cloned_enum(clone_of, a) == a,
        clone_from_enum(clone_of, clone_from_of, b, a) == a,
{
    lemma_clone_equals_value(clone_of, a.fields);
    lemma_clone_from_equals_source(clone_from_of, b.fields, a.fields);
}

/// The default value of a struct or a variant is made of the default
/// value of every field, in declaration order: the expression written for
/// the field where there is one, and the default of the field's type where
/// there is none.
pub proof fn lemma_default_is_fieldwise(entries: Seq<FieldEntryView>, i: int)
    requires
        0 <= i < entries.len(),
    ensures
        default_values(entries).len() == entries.len(),
        default_values(entries)[i] == (match explicit_default(entries[i].hattrs) {
            Some((v, shape)) => put_default_value(Seq::empty(), v, shape, type_text(entries[i])),
            None => put_default_arg(Seq::empty(), type_text(entries[i])),
        }),
{
}

/// Whether `marked` holds exactly the positions of those of the first `n`
/// variants that carry `#[default]`, in order.
pub open spec fn marks_cover(variants: Seq<VariantEntryView>, marked: Seq<usize>, n: int) -> bool {
    &&& forall|k: int|
        0 <= k < marked.len() ==> (#[trigger] marked[k]) < n
            && variants[marked[k] as int].hattrs.default is Some
    &&& forall|k: int, m: int|
        0 <= k < m < marked.len() ==> (#[trigger] marked[k]) < (#[trigger] marked[m])
    &&& forall|i: int|
        0 <= i < n && (#[trigger] variants[i]).hattrs.default is Some ==> exists|k: int|
            0 <= k < marked.len() && (#[trigger] marked[k]) == i
}

/// The marked variants among the first `n` are exactly those that carry
/// `#[default]`.
pub proof fn lemma_marks_cover(variants: Seq<VariantEntryView>, n: int)
    requires
        0 <= n <= variants.len() <= usize::MAX,
    ensures
        marks_cover(variants, marked_upto(variants, n), n),
    decreases n,
{
    if n > 0 {
        lemma_marks_cover(variants, n - 1);
        let prev = marked_upto(variants, n - 1);
        let cur = marked_upto(variants, n);
        if variants[n - 1].hattrs.default is Some {
            assert forall|k: int| 0 <= k < cur.len() implies (#[trigger] cur[k]) < n
                && variants[cur[k] as int].hattrs.default is Some by {
                if k < prev.len() {
                    assert(cur[k] == prev[k]);
                }
            }
            assert forall|k: int, m: int| 0 <= k < m < cur.len() implies (#[trigger] cur[k]) < (
            #[trigger] cur[m]) by {
                assert(cur[k] == prev[k]);
                if m < prev.len() {
                    assert(cur[m] == prev[m]);
                }
            }
            assert forall|i: int|
                0 <= i < n && (#[trigger] variants[i]).hattrs.default is Some implies exists|
                k: int,
            |
                0 <= k < cur.len() && (#[trigger] cur[k]) == i by {
                if i < n - 1 {
                    let k = choose|k: int| 0 <= k < prev.len() && (#[trigger] prev[k]) == i;
                    assert(cur[k] == prev[k]);
                } else {
                    assert(cur[prev.len() as int] == i);
                }
            }
        } else {
            assert forall|i: int|
                0 <= i < n && (#[trigger] variants[i]).hattrs.default is Some implies exists|
                k: int,
            |
                0 <= k < cur.len() && (#[trigger] cur[k]) == i by {
                let k = choose|k: int| 0 <= k < prev.len() && (#[trigger] prev[k]) == i;
                assert(cur[k] == prev[k]);
            }
        }
    }
}

/// The default value of an enum is of the one variant that carries
/// `#[default]`, or of the sole variant of the enum: where a variant is
/// selected, it is the only one marked, or the only one there is.
pub proof fn lemma_default_variant_is_marked_or_sole(variants: Seq<VariantEntryView>, k: usize)
    requires
        variants.len() <= usize::MAX,
        default_variant(variants) == Ok::<usize, DiagnosticView>(k),
    ensures
        k < variants.len(),
        forall|j: int|
            0 <= j < variants.len() && (#[trigger] variants[j]).hattrs.default is Some ==> j == k,
        variants[k as int].hattrs.default is Some || variants.len() == 1,
{
    let n = variants.len() as int;
    lemma_marks_cover(variants, n);
    let marked = marked_upto(variants, n);
    if marked.len() == 1 {
        assert(marked[0] == k);
        assert forall|j: int|
            0 <= j < variants.len() && (#[trigger] variants[j]).hattrs.default is Some implies j
            == k by {
            let m = choose|m: int| 0 <= m < marked.len() && (#[trigger] marked[m]) == j;
            assert(m == 0);
        }
    } else {
        assert forall|j: int|
            0 <= j < variants.len() && (#[trigger] variants[j]).hattrs.default is Some implies j
            == k by {
            let m = choose|m: int| 0 <= m < marked.len() && (#[trigger] marked[m]) == j;
        }
    }
}

/// The one variant that carries `#[default]` is selected.
pub proof fn lemma_marked_variant_is_selected(variants: Seq<VariantEntryView>, k: usize)
    requires
        variants.len() <= usize::MAX,
        k < variants.len(),
        variants[k as int].hattrs.default is Some,
        forall|j: int|
            0 <= j < variants.len() && (#[trigger] variants[j]).hattrs.default is Some ==> j == k,
    ensures
        default_variant(variants) == Ok::<usize, DiagnosticView>(k),
{
    let n = variants.len() as int;
    lemma_marks_cover(variants, n);
    let marked = marked_upto(variants, n);
    let m = choose|m: int| 0 <= m < marked.len() && (#[trigger] marked[m]) == k;
    if marked.len() > 1 {
        let other = if m == 0 {
            1int
        } else {
            0int
        };
        assert(marked[other] < n && variants[marked[other] as int].hattrs.default is Some);
        assert(marked[other] == k);
        if m == 0 {
            assert(marked[0] < marked[1]);
        } else {
            assert(marked[0] < marked[m]);
        }
    }
    assert(marked.len() == 1);
    assert(m == 0);
}

/// The sole variant of an enum is selected where it is not marked.
pub proof fn lemma_sole_variant_is_selected(variants: Seq<VariantEntryView>)
    requires
        variants.len() == 1,
        variants[0].hattrs.default is None,
    ensures
        default_variant(variants) == Ok::<usize, DiagnosticView>(0usize),
{
    lemma_marks_cover(variants, 1);
    let marked = marked_upto(variants, 1);
    if marked.len() > 0 {
        assert(marked[0] < 1 && variants[marked[0] as int].hattrs.default is Some);
    }
}

} // verus!
