//! The entry points: an item comes in with its annotations, and goes out
//! without those that were read, together with what was synthesized.

use vstd::prelude::*;
use crate::attrs::{attrs_view, AttrArgs, AttrArgsView, Attribute, AttributeView};
use crate::driver::{
    build_by_item_enum_core, build_by_item_struct_core, diagnostics_view, enum_expansion,
    expansion_view,
    generated_view, kinds_of_root, struct_expansion, Generated, GeneratedView,
};
use crate::hattrs::HelperAttributeKinds;
use crate::item::{
    fields_view, variants_view, Field, FieldView, ItemEnum, ItemEnumView, ItemStruct,
    ItemStructView, Variant, VariantView,
};
use crate::item_impl::{build_by_item_impl, item_impl_expansion, ItemImpl, ItemImplView};
use crate::text::{Diagnostic, DiagnosticView, CALL_SITE};

verus! {

/// Those of the first `n` annotations of `attrs` that `kinds` does not
/// have read, in order.
pub open spec fn retained_upto(
    attrs: Seq<AttributeView>,
    kinds: HelperAttributeKinds,
    n: int,
) -> Seq<
    AttributeView,
>
    decreases n,
{
    if n <= 0 {
        Seq::empty()
    } else if kinds.matches(attrs[n - 1].ident) {
        retained_upto(attrs, kinds, n - 1)
    } else {
        retained_upto(attrs, kinds, n - 1).push(attrs[n - 1])
    }
}

/// The annotations of `attrs` that `kinds` does not have read, in order.
pub open spec fn retained(attrs: Seq<AttributeView>, kinds: HelperAttributeKinds) -> Seq<
    AttributeView,
> {
    retained_upto(attrs, kinds, attrs.len() as int)
}

/// The field `f` without the annotations that were read.
pub open spec fn stripped_field(f: FieldView, kinds: HelperAttributeKinds) -> FieldView {
    FieldView { attrs: retained(f.attrs, kinds), ..f }
}

/// The fields `fields`, each without the annotations that were read.
pub open spec fn stripped_fields(fields: Seq<FieldView>, kinds: HelperAttributeKinds) -> Seq<
    FieldView,
> {
    fields.map_values(|f: FieldView| stripped_field(f, kinds))
}

/// The struct `item` without the annotations that were read: nothing else
/// about it changes.
pub open spec fn stripped_struct(
    item: ItemStructView,
    kinds: HelperAttributeKinds,
) -> ItemStructView {
    ItemStructView {
        attrs: retained(item.attrs, kinds),
        fields: stripped_fields(item.fields, kinds),
        ..item
    }
}

/// The variant `v` without the annotations that were read.
pub open spec fn stripped_variant(v: VariantView, kinds: HelperAttributeKinds) -> VariantView {
    VariantView {
        attrs: retained(v.attrs, kinds),
        fields: stripped_fields(v.fields, kinds),
        ..v
    }
}

/// The enum `item` without the annotations that were read: nothing else
/// about it changes.
pub open spec fn stripped_enum(item: ItemEnumView, kinds: HelperAttributeKinds) -> ItemEnumView {
    ItemEnumView {
        attrs: retained(item.attrs, kinds),
        variants: item.variants.map_values(|v: VariantView| stripped_variant(v, kinds)),
        ..item
    }
}

/// Takes the annotations that `kinds` has read out of `attrs`.
pub fn remove_attrs(attrs: &mut Vec<Attribute>, kinds: &HelperAttributeKinds)
    ensures
        attrs_view(final(attrs)@) == retained(attrs_view(old(attrs)@), *kinds),
{
    let ghost orig = attrs_view(attrs@);
    let mut i: usize = 0;
    let ghost mut k: int = 0;
    assert(attrs_view(attrs@).take(0) =~= retained_upto(orig, *kinds, 0));
    assert(attrs_view(attrs@).skip(0) =~= orig.skip(0));
    while i < attrs.len()
        invariant
            i <= attrs.len(),
            0 <= k <= orig.len(),
            attrs.len() - i == orig.len() - k,
            attrs_view(attrs@).take(i as int) == retained_upto(orig, *kinds, k),
            attrs_view(attrs@).skip(i as int) == orig.skip(k),
        decreases attrs.len() - i,
    {
        let ghost before = attrs_view(attrs@);
        assert(before[i as int] == before.skip(i as int)[0]);
        assert(orig[k] == orig.skip(k)[0]);
        assert(before[i as int] == attrs@[i as int]@);
        if kinds.is_match(&attrs[i]) {
            let _ = attrs.remove(i);
            proof {
                let after = attrs_view(attrs@);
                assert(after.take(i as int) =~= before.take(i as int));
                assert(after.skip(i as int) =~= before.skip(i as int).skip(1));
                assert(orig.skip(k).skip(1) =~= orig.skip(k + 1));
                k = k + 1;
            }
        } else {
            proof {
                assert(before.take(i as int + 1) =~= before.take(i as int).push(before[i as int]));
                assert(before.skip(i as int).skip(1) =~= before.skip(i as int + 1));
                assert(orig.skip(k).skip(1) =~= orig.skip(k + 1));
                k = k + 1;
            }
            i = i + 1;
        }
    }
    assert(attrs_view(attrs@).take(attrs.len() as int) =~= attrs_view(attrs@));
}

/// Takes the annotations that `kinds` has read off every field.
pub fn remove_field_attrs(fields: &mut Vec<Field>, kinds: &HelperAttributeKinds)
    ensures
        fields_view(final(fields)@) == stripped_fields(fields_view(old(fields)@), *kinds),
{
    let ghost orig = fields_view(fields@);
    let mut i: usize = 0;
    while i < fields.len()
        invariant
            i <= fields.len(),
            fields.len() == orig.len(),
            forall|j: int| 0 <= j < i ==> fields@[j]@ == stripped_field(orig[j], *kinds),
            forall|j: int| i <= j < fields.len() ==> fields@[j]@ == orig[j],
        decreases fields.len() - i,
    {
        remove_attrs(&mut fields[i].attrs, kinds);
        i = i + 1;
    }
    assert(fields_view(fields@) =~= stripped_fields(orig, *kinds));
}

/// Takes the annotations that `kinds` has read off every variant and every
/// field of it.
pub fn remove_variant_attrs(variants: &mut Vec<Variant>, kinds: &HelperAttributeKinds)
    ensures
        variants_view(final(variants)@) == variants_view(old(variants)@).map_values(
            |v: VariantView| stripped_variant(v, *kinds),
        ),
{
    let ghost orig = variants_view(variants@);
    let mut i: usize = 0;
    while i < variants.len()
        invariant
            i <= variants.len(),
            variants.len() == orig.len(),
            forall|j: int| 0 <= j < i ==> variants@[j]@ == stripped_variant(orig[j], *kinds),
            forall|j: int| i <= j < variants.len() ==> variants@[j]@ == orig[j],
        decreases variants.len() - i,
    {
        remove_attrs(&mut variants[i].attrs, kinds);
        remove_field_attrs(&mut variants[i].fields, kinds);
        i = i + 1;
    }
    assert(variants_view(variants@) =~= orig.map_values(
        |v: VariantView| stripped_variant(v, *kinds),
    ));
}

/// Expands a struct that the generator is invoked on with the arguments
/// `attr`, and takes the annotations that were read off the struct and its
/// fields, whether the expansion succeeds or not.
pub fn build_by_item_struct(attr: &AttrArgs, item: &mut ItemStruct) -> (r: Result<
    Vec<Generated>,
    Vec<Diagnostic>,
>)
    ensures
        expansion_view(r) == struct_expansion(
            HelperAttributeKinds::initial(true),
            Some(attr@),
            old(item)@,
        ),
        final(item)@ == stripped_struct(
            old(item)@,
            kinds_of_root(HelperAttributeKinds::initial(true), Some(attr@), old(item)@.attrs),
        ),
{
    let mut kinds = HelperAttributeKinds::new(true);
    let result = build_by_item_struct_core(Some(attr), item, &mut kinds);
    remove_attrs(&mut item.attrs, &kinds);
    remove_field_attrs(&mut item.fields, &kinds);
    result
}

/// Expands an enum that the generator is invoked on with the arguments
/// `attr`, and takes the annotations that were read off the enum, its
/// variants and their fields, whether the expansion succeeds or not.
pub fn build_by_item_enum(attr: &AttrArgs, item: &mut ItemEnum) -> (r: Result<
    Vec<Generated>,
    Vec<Diagnostic>,
>)
    ensures
        expansion_view(r) == enum_expansion(
            HelperAttributeKinds::initial(true),
            Some(attr@),
            old(item)@,
        ),
        final(item)@ == stripped_enum(
            old(item)@,
            kinds_of_root(HelperAttributeKinds::initial(true), Some(attr@), old(item)@.attrs),
        ),
{
    let mut kinds = HelperAttributeKinds::new(true);
    let result = build_by_item_enum_core(Some(attr), item, &mut kinds);
    remove_attrs(&mut item.attrs, &kinds);
    remove_variant_attrs(&mut item.variants, &kinds);
    result
}

/// An item that the generator is invoked on.
pub enum Item {
    Struct(ItemStruct),
    Enum(ItemEnum),
    Impl(ItemImpl),
    Union,
    /// Any other item.
    Other,
}

/// The mathematical value of an [`Item`].
pub enum ItemView {
    Struct(ItemStructView),
    Enum(ItemEnumView),
    Impl(ItemImplView),
    Union,
    Other,
}

impl View for Item {
    type V = ItemView;

    open spec fn view(&self) -> ItemView {
        match self {
            Item::Struct(s) => ItemView::Struct(s@),
            Item::Enum(e) => ItemView::Enum(e@),
            Item::Impl(i) => ItemView::Impl(i@),
            Item::Union => ItemView::Union,
            Item::Other => ItemView::Other,
        }
    }
}

/// What the derive form of the generator gives for `item`: the expansion
/// of a struct or an enum from its own annotations. Anything else is a
/// fault.
pub open spec fn derive_expansion(item: ItemView) -> Result<
    Seq<GeneratedView>,
    Seq<DiagnosticView>,
> {
    match item {
        ItemView::Struct(s) => struct_expansion(HelperAttributeKinds::initial(true), None, s),
        ItemView::Enum(e) => enum_expansion(HelperAttributeKinds::initial(true), None, e),
        ItemView::Union => Err(
            seq![DiagnosticView { span: CALL_SITE, message: "does not support union types"@ }],
        ),
        _ => Err(
            seq![
                DiagnosticView {
                    span: CALL_SITE,
                    message: "expected one of: `struct`, `enum`, `union`"@,
                },
            ],
        ),
    }
}

/// Faults in place of what was to be synthesized.
pub open spec fn only_errors(ds: Seq<DiagnosticView>) -> Seq<GeneratedView> {
    ds.map_values(|d: DiagnosticView| GeneratedView::Error(d))
}

/// What the attribute form of the generator, invoked with the arguments
/// `attr`, gives for `item`.
///
/// A fault in the expansion of a struct, an enum or an implementation
/// stands in place of the code. An item of another kind is refused.
pub open spec fn attribute_expansion(attr: AttrArgsView, item: ItemView) -> Result<
    Seq<GeneratedView>,
    Seq<DiagnosticView>,
> {
    match item {
        ItemView::Struct(s) => match struct_expansion(
            HelperAttributeKinds::initial(true),
            Some(attr),
            s,
        ) {
            Ok(gs) => Ok(gs),
            Err(ds) => Ok(only_errors(ds)),
        },
        ItemView::Enum(e) => match enum_expansion(
            HelperAttributeKinds::initial(true),
            Some(attr),
            e,
        ) {
            Ok(gs) => Ok(gs),
            Err(ds) => Ok(only_errors(ds)),
        },
        ItemView::Impl(i) => match item_impl_expansion(attr, i) {
            Ok(code) => Ok(seq![GeneratedView::Code(code)]),
            Err(d) => Ok(only_errors(seq![d])),
        },
        _ => Err(
            seq![
                DiagnosticView {
                    span: CALL_SITE,
                    message: "`#[derive_ex]` can be specified only for `struct`, `enum`, or `impl`."@,
                },
            ],
        ),
    }
}

/// The item as it is handed back by the attribute form of the generator:
/// a struct or an enum without the annotations that were read, anything
/// else unchanged.
pub open spec fn attribute_item(attr: AttrArgsView, item: ItemView) -> ItemView {
    match item {
        ItemView::Struct(s) => ItemView::Struct(
            stripped_struct(
                s,
                kinds_of_root(HelperAttributeKinds::initial(true), Some(attr), s.attrs),
            ),
        ),
        ItemView::Enum(e) => ItemView::Enum(
            stripped_enum(
                e,
                kinds_of_root(HelperAttributeKinds::initial(true), Some(attr), e.attrs),
            ),
        ),
        _ => item,
    }
}

/// The results of `r`, or its faults in their place.
pub open spec fn results_or_error(r: Result<Seq<GeneratedView>, Seq<DiagnosticView>>) -> Seq<
    GeneratedView,
> {
    match r {
        Ok(gs) => gs,
        Err(ds) => only_errors(ds),
    }
}

fn errors_only(ds: Vec<Diagnostic>) -> (r: Vec<Generated>)
    ensures
        generated_view(r@) == only_errors(diagnostics_view(ds@)),
{
    let ghost all = diagnostics_view(ds@);
    let mut ds = ds;
    let mut v: Vec<Generated> = Vec::new();
    // taken from the end, so put back in order afterwards
    let mut rev: Vec<Diagnostic> = Vec::new();
    while ds.len() > 0
        invariant
            ds.len() + rev.len() == all.len(),
            forall|j: int| 0 <= j < ds.len() ==> ds@[j]@ == all[j],
            forall|j: int| 0 <= j < rev.len() ==> rev@[j]@ == all[all.len() - 1 - j],
        decreases ds.len(),
    {
        let d = ds.pop().unwrap();
        rev.push(d);
    }
    while rev.len() > 0
        invariant
            v.len() + rev.len() == all.len(),
            forall|j: int| 0 <= j < rev.len() ==> rev@[j]@ == all[all.len() - 1 - j],
            forall|j: int| 0 <= j < v.len() ==> v@[j]@ == GeneratedView::Error(all[j]),
        decreases rev.len(),
    {
        let d = rev.pop().unwrap();
        v.push(Generated::Error(d));
    }
    assert(generated_view(v@) =~= only_errors(all));
    v
}

fn one_fault(d: Diagnostic) -> (r: Vec<Diagnostic>)
    ensures
        diagnostics_view(r@) == seq![d@],
{
    let mut v: Vec<Diagnostic> = Vec::new();
    v.push(d);
    assert(diagnostics_view(v@) =~= seq![d@]);
    v
}

/// Expands a struct or an enum from its own annotations.
pub fn build_derive(item: &Item) -> (r: Result<Vec<Generated>, Vec<Diagnostic>>)
    ensures
        expansion_view(r) == derive_expansion(item@),
{
    let mut kinds = HelperAttributeKinds::new(true);
    match item {
        Item::Struct(s) => build_by_item_struct_core(None, s, &mut kinds),
        Item::Enum(e) => build_by_item_enum_core(None, e, &mut kinds),
        Item::Union => Err(
            one_fault(
                Diagnostic { span: CALL_SITE, message: "does not support union types".to_owned() },
            ),
        ),
        _ => Err(
            one_fault(
                Diagnostic {
                    span: CALL_SITE,
                    message: "expected one of: `struct`, `enum`, `union`".to_owned(),
                },
            ),
        ),
    }
}

/// Expands the item that the generator is invoked on with the arguments
/// `attr`.
#[verifier::rlimit(40)]
pub fn build(attr: &AttrArgs, item: &mut Item) -> (r: Result<Vec<Generated>, Vec<Diagnostic>>)
    ensures
        expansion_view(r) == attribute_expansion(attr@, old(item)@),
        final(item)@ == attribute_item(attr@, old(item)@),
{
    match item {
        Item::Struct(item_struct) => match build_by_item_struct(attr, item_struct) {
            Ok(gs) => Ok(gs),
            Err(ds) => Ok(errors_only(ds)),
        },
        Item::Enum(item_enum) => match build_by_item_enum(attr, item_enum) {
            Ok(gs) => Ok(gs),
            Err(ds) => Ok(errors_only(ds)),
        },
        Item::Impl(item_impl) => match build_by_item_impl(attr, item_impl) {
            Ok(code) => {
                let mut v: Vec<Generated> = Vec::new();
                v.push(Generated::Code(code));
                assert(generated_view(v@) =~= seq![GeneratedView::Code(code@)]);
                Ok(v)
            },
            Err(d) => Ok(errors_only(one_fault(d))),
        },
        _ => Err(
            one_fault(
                Diagnostic {
                    span: CALL_SITE,
                    message: "`#[derive_ex]` can be specified only for `struct`, `enum`, or `impl`.".to_owned(),
                },
            ),
        ),
    }
}

/// The attribute form of the generator: hands the item back without the
/// annotations that were read, and returns what stands beside it, code or
/// diagnostics.
pub fn derive_ex(attr: &AttrArgs, item: &mut Item) -> (r: Vec<Generated>)
    ensures
        generated_view(r@) == results_or_error(attribute_expansion(attr@, old(item)@)),
        final(item)@ == attribute_item(attr@, old(item)@),
{
    match build(attr, item) {
        Ok(s) => s,
        Err(e) => errors_only(e),
    }
}

/// The derive form of the generator: returns what stands beside the item,
/// code or diagnostics.
pub fn derive_ex_derive(input: &Item) -> (r: Vec<Generated>)
    ensures
        generated_view(r@) == results_or_error(derive_expansion(input@)),
{
    match build_derive(input) {
        Ok(s) => s,
        Err(e) => errors_only(e),
    }
}

/// What the generator hands back is determined by the values of the item
/// and of the arguments: two invocations on items of the same value, with
/// arguments of the same value, give the same code, the same diagnostics
/// and the same item.
pub proof fn lemma_expansion_is_determined(
    attr_a: AttrArgs,
    item_a: Item,
    attr_b: AttrArgs,
    item_b: Item,
)
    requires
        attr_a@ == attr_b@,
        item_a@ == item_b@,
    ensures
        results_or_error(attribute_expansion(attr_a@, item_a@)) == results_or_error(
            attribute_expansion(attr_b@, item_b@),
        ),
        attribute_item(attr_a@, item_a@) == attribute_item(attr_b@, item_b@),
        results_or_error(derive_expansion(item_a@)) == results_or_error(
            derive_expansion(item_b@),
        ),
{
}

} // verus!
