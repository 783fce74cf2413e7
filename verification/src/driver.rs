//! The expansion of one item: every requested trait is synthesized on its
//! own, and the annotations that were read are taken off the item.

use vstd::prelude::*;
use crate::attrs::{attrs_view, AttrArgs, AttrArgsView, Attribute, AttributeView};
use crate::compare_body::{
    build_compare_op_for_enum, build_compare_op_for_struct, compare_impl, ItemSourceView,
};
use crate::derive_debug::{
    build_debug_for_enum, build_debug_for_struct, debug_enum_impl, debug_struct_impl,
};
use crate::derive_default::{
    build_default_for_enum, build_default_for_struct, default_enum_impl, default_struct_impl,
};
use crate::derive_ops::{
    assign_op_impls, binary_op_impls, build_assign_op, build_binary_op, build_deref_for_struct,
    build_unary_op, deref_struct_impl, unary_op_impls,
};
use crate::hattrs::HelperAttributeKinds;
use crate::helper::{entries_of_root, entries_view, AttributeTarget, DeriveEntry, DeriveEntryView};
use crate::item::{
    field_entries_of, field_entries_view, fields_view, variant_entries_of, variant_entries_view,
    variants_view, Field, FieldEntry, FieldEntryView, FieldView, ItemEnum, ItemEnumView,
    ItemStruct, ItemStructView, VariantEntry, VariantEntryView, VariantView,
};
use crate::item_type::{
    build_clone_for_enum, build_clone_for_struct, build_copy_for_enum, build_copy_for_struct,
    clone_enum_impl, clone_struct_impl, copy_enum_impl, copy_struct_impl,
};
use crate::kinds::DeriveItemKind;
use crate::site::{helper_attributes_of, HelperAttributes, HelperAttributesView};
use crate::text::{code_result_view, Diagnostic, DiagnosticView};

verus! {

/// What the synthesis of one requested trait gives: the implementation, or
/// the diagnostic that stands in its place.
pub enum Generated {
    Code(String),
    Error(Diagnostic),
}

/// The mathematical value of [`Generated`].
pub enum GeneratedView {
    Code(Seq<char>),
    Error(DiagnosticView),
}

impl View for Generated {
    type V = GeneratedView;

    open spec fn view(&self) -> GeneratedView {
        match self {
            Generated::Code(s) => GeneratedView::Code(s@),
            Generated::Error(d) => GeneratedView::Error(d@),
        }
    }
}

/// The values of a list of results.
pub open spec fn generated_view(gs: Seq<Generated>) -> Seq<GeneratedView> {
    gs.map_values(|g: Generated| g@)
}

/// The values of a list of diagnostics.
pub open spec fn diagnostics_view(ds: Seq<Diagnostic>) -> Seq<DiagnosticView> {
    ds.map_values(|d: Diagnostic| d@)
}

/// The value of a result of an expansion.
pub open spec fn expansion_view(r: Result<Vec<Generated>, Vec<Diagnostic>>) -> Result<
    Seq<GeneratedView>,
    Seq<DiagnosticView>,
> {
    match r {
        Ok(gs) => Ok(generated_view(gs@)),
        Err(ds) => Err(diagnostics_view(ds@)),
    }
}

/// What becomes of the result of a request: a fault stays a fault; code is
/// kept, or, where the request asks for a dump, reported as a diagnostic
/// that carries it.
pub open spec fn dumped(
    e: DeriveEntryView,
    result: Result<Seq<char>, DiagnosticView>,
) -> GeneratedView {
    match result {
        Ok(code) => if e.dump {
            GeneratedView::Error(DiagnosticView { span: e.span, message: "dump:\n"@ + code })
        } else {
            GeneratedView::Code(code)
        },
        Err(d) => GeneratedView::Error(d),
    }
}

/// The implementation that the request `e` asks for a struct.
pub open spec fn struct_impl(
    item: ItemStructView,
    e: DeriveEntryView,
    h: HelperAttributesView,
    entries: Seq<FieldEntryView>,
) -> Result<Seq<char>, DiagnosticView> {
    match e.kind {
        DeriveItemKind::BinaryOp(op) => Ok(binary_op_impls(item, op, e, h, entries)),
        DeriveItemKind::AssignOp(op) => Ok(assign_op_impls(item, op, e, h, entries)),
        DeriveItemKind::UnaryOp(op) => Ok(unary_op_impls(item, op, e, h, entries)),
        DeriveItemKind::CompareOp(op) => compare_impl(
            op,
            ItemSourceView::Struct { item, fields: entries },
            e,
            h,
        ),
        DeriveItemKind::Copy => Ok(copy_struct_impl(item, e, h, entries)),
        DeriveItemKind::Clone => Ok(clone_struct_impl(item, e, h, entries)),
        DeriveItemKind::Debug => debug_struct_impl(item, e, h, entries),
        DeriveItemKind::Default => Ok(default_struct_impl(item, e, h, entries)),
        DeriveItemKind::Deref => deref_struct_impl(item, e, h, entries),
        DeriveItemKind::DerefMut => deref_struct_impl(item, e, h, entries),
    }
}

/// The complaint that a trait cannot be synthesized for an enum.
pub open spec fn unsupported_for_enum_message(kind: DeriveItemKind) -> Seq<char> {
    "derive `"@ + kind.name() + "` for enum is not supported"@
}

/// The implementation that the request `e` asks for an enum. The operators
/// and the dereferencing traits are not made for enums.
pub open spec fn enum_impl(
    item: ItemEnumView,
    e: DeriveEntryView,
    h: HelperAttributesView,
    variants: Seq<VariantEntryView>,
) -> Result<Seq<char>, DiagnosticView> {
    match e.kind {
        DeriveItemKind::CompareOp(op) => compare_impl(
            op,
            ItemSourceView::Enum { item, variants },
            e,
            h,
        ),
        DeriveItemKind::Copy => Ok(copy_enum_impl(item, e, h, variants)),
        DeriveItemKind::Clone => Ok(clone_enum_impl(item, e, h, variants)),
        DeriveItemKind::Debug => debug_enum_impl(item, e, h, variants),
        DeriveItemKind::Default => default_enum_impl(item, e, h, variants),
        _ => Err(DiagnosticView { span: e.span, message: unsupported_for_enum_message(e.kind) }),
    }
}

/// The helper attributes that are read at the sites of an item with the
/// annotations `attrs`: those of `kinds`, and those of the traits that are
/// requested for the item.
pub open spec fn kinds_of_root(
    kinds: HelperAttributeKinds,
    attr: Option<AttrArgsView>,
    attrs: Seq<AttributeView>,
) -> HelperAttributeKinds {
    match entries_of_root(attr, attrs) {
        Ok(es) => kinds.extended_upto(es, es.len() as int),
        Err(_) => kinds,
    }
}

/// `acc`, followed by the fault of the annotations `attrs` of one site if
/// they hold one.
pub open spec fn with_site_fault(
    acc: Seq<DiagnosticView>,
    attrs: Seq<AttributeView>,
    target: AttributeTarget,
    kinds: HelperAttributeKinds,
) -> Seq<DiagnosticView> {
    match helper_attributes_of(attrs, target, kinds) {
        Err(d) => acc.push(d),
        Ok(_) => acc,
    }
}

/// `acc`, followed by the faults of the first `n` of the fields `fields`:
/// one for each field whose annotations hold a fault, in declaration
/// order.
pub open spec fn with_field_faults(
    acc: Seq<DiagnosticView>,
    fields: Seq<FieldView>,
    kinds: HelperAttributeKinds,
    n: int,
) -> Seq<DiagnosticView>
    decreases n,
{
    if n <= 0 {
        acc
    } else {
        with_site_fault(
            with_field_faults(acc, fields, kinds, n - 1),
            fields[n - 1].attrs,
            AttributeTarget::Field,
            kinds,
        )
    }
}

/// `acc`, followed by the faults of the first `n` of the variants
/// `variants`: for each variant, the fault of its own annotations, then
/// those of its fields.
pub open spec fn with_variant_faults(
    acc: Seq<DiagnosticView>,
    variants: Seq<VariantView>,
    kinds: HelperAttributeKinds,
    n: int,
) -> Seq<DiagnosticView>
    decreases n,
{
    if n <= 0 {
        acc
    } else {
        with_field_faults(
            with_site_fault(
                with_variant_faults(acc, variants, kinds, n - 1),
                variants[n - 1].attrs,
                AttributeTarget::Variant,
                kinds,
            ),
            variants[n - 1].fields,
            kinds,
            variants[n - 1].fields.len() as int,
        )
    }
}

/// The faults among the annotations of a struct: one for each site that
/// holds a fault, the struct itself first, then its fields in declaration
/// order.
pub open spec fn struct_faults(item: ItemStructView, kinds: HelperAttributeKinds) -> Seq<
    DiagnosticView,
> {
    with_field_faults(
        with_site_fault(Seq::empty(), item.attrs, AttributeTarget::Type, kinds.no_derive_ex()),
        item.fields,
        kinds,
        item.fields.len() as int,
    )
}

/// The faults among the annotations of an enum: one for each site that
/// holds a fault, the enum itself first, then its variants in declaration
/// order, each followed by its fields.
pub open spec fn enum_faults(item: ItemEnumView, kinds: HelperAttributeKinds) -> Seq<
    DiagnosticView,
> {
    with_variant_faults(
        with_site_fault(Seq::empty(), item.attrs, AttributeTarget::Type, kinds.no_derive_ex()),
        item.variants,
        kinds,
        item.variants.len() as int,
    )
}

/// The expansion of a struct: for each request, in the order written, the
/// implementation or the diagnostic in its place. `kinds` names the helper
/// attributes that are read whatever is requested.
///
/// A fault in the requests themselves leaves nothing to expand, and is the
/// result. So are the faults among the annotations of the struct and of
/// its fields: all of them, one for each site. Where there is none, every
/// site is read, and every request is answered.
pub open spec fn struct_expansion(
    kinds: HelperAttributeKinds,
    attr: Option<AttrArgsView>,
    item: ItemStructView,
) -> Result<Seq<GeneratedView>, Seq<DiagnosticView>> {
    match entries_of_root(attr, item.attrs) {
        Err(d) => Err(seq![d]),
        Ok(es) => {
            let kinds = kinds_of_root(kinds, attr, item.attrs);
            if struct_faults(item, kinds).len() > 0 {
                Err(struct_faults(item, kinds))
            } else {
                let h = helper_attributes_of(
                    item.attrs,
                    AttributeTarget::Type,
                    kinds.no_derive_ex(),
                )->Ok_0;
                let entries = field_entries_of(item.fields, kinds)->Ok_0;
                Ok(
                    Seq::new(
                        es.len(),
                        |i: int| dumped(es[i], struct_impl(item, es[i], h, entries)),
                    ),
                )
            }
        },
    }
}

/// The expansion of an enum: for each request, in the order written, the
/// implementation or the diagnostic in its place. A fault in the requests,
/// or the faults among the annotations of the enum, its variants and their
/// fields, are the result where there are any.
pub open spec fn enum_expansion(
    kinds: HelperAttributeKinds,
    attr: Option<AttrArgsView>,
    item: ItemEnumView,
) -> Result<Seq<GeneratedView>, Seq<DiagnosticView>> {
    match entries_of_root(attr, item.attrs) {
        Err(d) => Err(seq![d]),
        Ok(es) => {
            let kinds = kinds_of_root(kinds, attr, item.attrs);
            if enum_faults(item, kinds).len() > 0 {
                Err(enum_faults(item, kinds))
            } else {
                let h = helper_attributes_of(
                    item.attrs,
                    AttributeTarget::Type,
                    kinds.no_derive_ex(),
                )->Ok_0;
                let variants = variant_entries_of(item.variants, kinds)->Ok_0;
                Ok(
                    Seq::new(
                        es.len(),
                        |i: int| dumped(es[i], enum_impl(item, es[i], h, variants)),
                    ),
                )
            }
        },
    }
}

/// Faults are only ever added: the list never gets shorter, and it stays
/// as long as it was only if each of the first `n` fields reads without a
/// fault.
pub proof fn lemma_field_faults_grow(
    acc: Seq<DiagnosticView>,
    fields: Seq<FieldView>,
    kinds: HelperAttributeKinds,
    n: int,
)
    requires
        0 <= n <= fields.len(),
    ensures
        with_field_faults(acc, fields, kinds, n).len() >= acc.len(),
        with_field_faults(acc, fields, kinds, n).len() == acc.len() ==> forall|i: int|
            0 <= i < n ==> (#[trigger] helper_attributes_of(
                fields[i].attrs,
                AttributeTarget::Field,
                kinds,
            )) is Ok,
    decreases n,
{
    if n > 0 {
        lemma_field_faults_grow(acc, fields, kinds, n - 1);
    }
}

/// Fields that all read without a fault all have their entries.
pub proof fn lemma_fields_without_faults_have_entries(
    fields: Seq<FieldView>,
    kinds: HelperAttributeKinds,
    from: int,
    acc: Seq<FieldEntryView>,
)
    requires
        0 <= from <= fields.len(),
        forall|i: int|
            0 <= i < fields.len() ==> (#[trigger] helper_attributes_of(
                fields[i].attrs,
                AttributeTarget::Field,
                kinds,
            )) is Ok,
    ensures
        crate::item::field_entries_from(fields, kinds, from, acc) is Ok,
    decreases fields.len() - from,
{
    if from < fields.len() {
        let h = helper_attributes_of(fields[from].attrs, AttributeTarget::Field, kinds);
        assert(h is Ok);
        lemma_fields_without_faults_have_entries(
            fields,
            kinds,
            from + 1,
            acc.push(
                FieldEntryView { index: from as usize, field: fields[from], hattrs: h->Ok_0 },
            ),
        );
    }
}

/// A struct without a fault among its annotations has all its sites read:
/// where no fault is gathered, the expansion goes on to the requests.
pub proof fn lemma_struct_without_faults_is_read(item: ItemStructView, kinds: HelperAttributeKinds)
    requires
        struct_faults(item, kinds).len() == 0,
    ensures
        helper_attributes_of(item.attrs, AttributeTarget::Type, kinds.no_derive_ex()) is Ok,
        field_entries_of(item.fields, kinds) is Ok,
{
    let first = with_site_fault(
        Seq::empty(),
        item.attrs,
        AttributeTarget::Type,
        kinds.no_derive_ex(),
    );
    lemma_field_faults_grow(first, item.fields, kinds, item.fields.len() as int);
    lemma_fields_without_faults_have_entries(item.fields, kinds, 0, Seq::empty());
}

/// Faults are only ever added: the list stays as long as it was only if
/// each of the first `n` variants, and each of their fields, reads without
/// a fault.
pub proof fn lemma_variant_faults_grow(
    acc: Seq<DiagnosticView>,
    variants: Seq<VariantView>,
    kinds: HelperAttributeKinds,
    n: int,
)
    requires
        0 <= n <= variants.len(),
    ensures
        with_variant_faults(acc, variants, kinds, n).len() >= acc.len(),
        with_variant_faults(acc, variants, kinds, n).len() == acc.len() ==> forall|i: int|
            0 <= i < n ==> (#[trigger] crate::item::variant_entry_of(variants[i], kinds)) is Ok,
    decreases n,
{
    if n > 0 {
        lemma_variant_faults_grow(acc, variants, kinds, n - 1);
        let v = variants[n - 1];
        let a1 = with_variant_faults(acc, variants, kinds, n - 1);
        let a2 = with_site_fault(a1, v.attrs, AttributeTarget::Variant, kinds);
        lemma_field_faults_grow(a2, v.fields, kinds, v.fields.len() as int);
        if with_variant_faults(acc, variants, kinds, n).len() == acc.len() {
            lemma_fields_without_faults_have_entries(v.fields, kinds, 0, Seq::empty());
        }
    }
}

/// Variants that all read without a fault all have their entries.
pub proof fn lemma_variants_without_faults_have_entries(
    variants: Seq<VariantView>,
    kinds: HelperAttributeKinds,
    from: int,
    acc: Seq<VariantEntryView>,
)
    requires
        0 <= from <= variants.len(),
        forall|i: int|
            0 <= i < variants.len() ==> (#[trigger] crate::item::variant_entry_of(
                variants[i],
                kinds,
            )) is Ok,
    ensures
        crate::item::variant_entries_from(variants, kinds, from, acc) is Ok,
    decreases variants.len() - from,
{
    if from < variants.len() {
        let e = crate::item::variant_entry_of(variants[from], kinds);
        assert(e is Ok);
        lemma_variants_without_faults_have_entries(variants, kinds, from + 1, acc.push(e->Ok_0));
    }
}

/// An enum without a fault among its annotations has all its sites read.
pub proof fn lemma_enum_without_faults_is_read(item: ItemEnumView, kinds: HelperAttributeKinds)
    requires
        enum_faults(item, kinds).len() == 0,
    ensures
        helper_attributes_of(item.attrs, AttributeTarget::Type, kinds.no_derive_ex()) is Ok,
        variant_entries_of(item.variants, kinds) is Ok,
{
    let first = with_site_fault(
        Seq::empty(),
        item.attrs,
        AttributeTarget::Type,
        kinds.no_derive_ex(),
    );
    lemma_variant_faults_grow(first, item.variants, kinds, item.variants.len() as int);
    lemma_variants_without_faults_have_entries(item.variants, kinds, 0, Seq::empty());
}

/// The value of an optional argument list.
pub open spec fn opt_args_view(attr: Option<&AttrArgs>) -> Option<AttrArgsView> {
    match attr {
        Some(a) => Some(a@),
        None => None,
    }
}

impl DeriveEntry {
    /// Turns the result of the request into what is handed out: code, or a
    /// diagnostic. A request for a dump has its code reported as a
    /// diagnostic.
    pub fn apply_dump(&self, result: Result<String, Diagnostic>) -> (r: Generated)
        ensures
            r@ == dumped(self@, code_result_view(result)),
    {
        match result {
            Ok(ts) => {
                if self.dump {
                    let mut message = "dump:\n".to_owned();
                    message.append(ts.as_str());
                    Generated::Error(Diagnostic { span: self.span, message })
                } else {
                    Generated::Code(ts)
                }
            },
            Err(e) => Generated::Error(e),
        }
    }
}

/// Synthesizes what the request `e` asks for a struct.
pub fn build_struct_impl(
    item: &ItemStruct,
    e: &DeriveEntry,
    hattrs: &HelperAttributes,
    fields: &Vec<FieldEntry>,
) -> (r: Result<String, Diagnostic>)
    ensures
        code_result_view(r) == struct_impl(item@, e@, hattrs@, field_entries_view(fields@)),
{
    match e.kind {
        DeriveItemKind::BinaryOp(op) => Ok(build_binary_op(item, op, e, hattrs, fields)),
        DeriveItemKind::AssignOp(op) => Ok(build_assign_op(item, op, e, hattrs, fields)),
        DeriveItemKind::UnaryOp(op) => Ok(build_unary_op(item, op, e, hattrs, fields)),
        DeriveItemKind::CompareOp(op) => build_compare_op_for_struct(op, item, e, hattrs, fields),
        DeriveItemKind::Copy => Ok(build_copy_for_struct(item, e, hattrs, fields)),
        DeriveItemKind::Clone => Ok(build_clone_for_struct(item, e, hattrs, fields)),
        DeriveItemKind::Debug => build_debug_for_struct(item, e, hattrs, fields),
        DeriveItemKind::Default => Ok(build_default_for_struct(item, e, hattrs, fields)),
        DeriveItemKind::Deref => build_deref_for_struct(item, e, hattrs, fields),
        DeriveItemKind::DerefMut => build_deref_for_struct(item, e, hattrs, fields),
    }
}

/// Synthesizes what the request `e` asks for an enum.
pub fn build_enum_impl(
    item: &ItemEnum,
    e: &DeriveEntry,
    hattrs: &HelperAttributes,
    variants: &Vec<VariantEntry>,
) -> (r: Result<String, Diagnostic>)
    ensures
        code_result_view(r) == enum_impl(item@, e@, hattrs@, variant_entries_view(variants@)),
{
    match e.kind {
        DeriveItemKind::CompareOp(op) => build_compare_op_for_enum(op, item, e, hattrs, variants),
        DeriveItemKind::Copy => Ok(build_copy_for_enum(item, e, hattrs, variants)),
        DeriveItemKind::Clone => Ok(build_clone_for_enum(item, e, hattrs, variants)),
        DeriveItemKind::Debug => build_debug_for_enum(item, e, hattrs, variants),
        DeriveItemKind::Default => build_default_for_enum(item, e, hattrs, variants),
        _ => {
            let mut message = "derive `".to_owned();
            let name = e.kind.to_string();
            message.append(name.as_str());
            message.append("` for enum is not supported");
            Err(Diagnostic { span: e.span, message })
        },
    }
}

fn one(d: Diagnostic) -> (r: Vec<Diagnostic>)
    ensures
        diagnostics_view(r@) == seq![d@],
{
    let mut v: Vec<Diagnostic> = Vec::new();
    v.push(d);
    assert(diagnostics_view(v@) =~= seq![d@]);
    v
}

fn push_site_fault(
    faults: &mut Vec<Diagnostic>,
    attrs: &Vec<Attribute>,
    target: AttributeTarget,
    kinds: &HelperAttributeKinds,
)
    ensures
        diagnostics_view(final(faults)@) == with_site_fault(
            diagnostics_view(old(faults)@),
            attrs_view(attrs@),
            target,
            *kinds,
        ),
{
    let ghost before = diagnostics_view(faults@);
    match HelperAttributes::from_attrs(attrs, target, kinds) {
        Ok(_) => {},
        Err(d) => {
            faults.push(d);
            assert(diagnostics_view(faults@) =~= before.push(d@));
        },
    }
}

fn push_field_faults(
    faults: &mut Vec<Diagnostic>,
    fields: &Vec<Field>,
    kinds: &HelperAttributeKinds,
)
    ensures
        diagnostics_view(final(faults)@) == with_field_faults(
            diagnostics_view(old(faults)@),
            fields_view(fields@),
            *kinds,
            fields.len() as int,
        ),
{
    let ghost start = diagnostics_view(faults@);
    let ghost all = fields_view(fields@);
    let mut i: usize = 0;
    while i < fields.len()
        invariant
            i <= fields.len(),
            all == fields_view(fields@),
            diagnostics_view(faults@) == with_field_faults(start, all, *kinds, i as int),
        decreases fields.len() - i,
    {
        assert(all[i as int] == fields@[i as int]@);
        push_site_fault(faults, &fields[i].attrs, AttributeTarget::Field, kinds);
        i = i + 1;
    }
}

/// Gathers the faults among the annotations of a struct, one for each site
/// that holds a fault.
pub fn collect_struct_faults(item: &ItemStruct, kinds: &HelperAttributeKinds) -> (r: Vec<
    Diagnostic,
>)
    ensures
        diagnostics_view(r@) == struct_faults(item@, *kinds),
{
    let mut faults: Vec<Diagnostic> = Vec::new();
    assert(diagnostics_view(faults@) =~= Seq::empty());
    let type_kinds = kinds.without_derive_ex();
    push_site_fault(&mut faults, &item.attrs, AttributeTarget::Type, &type_kinds);
    push_field_faults(&mut faults, &item.fields, kinds);
    faults
}

/// Gathers the faults among the annotations of an enum, one for each site
/// that holds a fault.
pub fn collect_enum_faults(item: &ItemEnum, kinds: &HelperAttributeKinds) -> (r: Vec<Diagnostic>)
    ensures
        diagnostics_view(r@) == enum_faults(item@, *kinds),
{
    let mut faults: Vec<Diagnostic> = Vec::new();
    assert(diagnostics_view(faults@) =~= Seq::empty());
    let type_kinds = kinds.without_derive_ex();
    push_site_fault(&mut faults, &item.attrs, AttributeTarget::Type, &type_kinds);
    let ghost start = diagnostics_view(faults@);
    let ghost all = variants_view(item.variants@);
    let mut i: usize = 0;
    while i < item.variants.len()
        invariant
            i <= item.variants.len(),
            all == variants_view(item.variants@),
            diagnostics_view(faults@) == with_variant_faults(start, all, *kinds, i as int),
        decreases item.variants.len() - i,
    {
        assert(all[i as int] == item.variants@[i as int]@);
        let v = &item.variants[i];
        push_site_fault(&mut faults, &v.attrs, AttributeTarget::Variant, kinds);
        push_field_faults(&mut faults, &v.fields, kinds);
        i = i + 1;
    }
    faults
}

/// Expands a struct, and notes in `kinds` which helper attributes were
/// read.
pub fn build_by_item_struct_core(
    attr: Option<&AttrArgs>,
    item: &ItemStruct,
    kinds: &mut HelperAttributeKinds,
) -> (r: Result<Vec<Generated>, Vec<Diagnostic>>)
    ensures
        expansion_view(r) == struct_expansion(*old(kinds), opt_args_view(attr), item@),
        *final(kinds) == kinds_of_root(*old(kinds), opt_args_view(attr), item@.attrs),
{
    let es = match DeriveEntry::from_root(attr, &item.attrs) {
        Ok(es) => es,
        Err(d) => {
            return Err(one(d));
        },
    };
    kinds.extend(&es);
    let faults = collect_struct_faults(item, kinds);
    if faults.len() > 0 {
        return Err(faults);
    }
    proof {
        lemma_struct_without_faults_is_read(item@, *kinds);
    }
    let type_kinds = kinds.without_derive_ex();
    let hattrs = match HelperAttributes::from_attrs(
        &item.attrs,
        AttributeTarget::Type,
        &type_kinds,
    ) {
        Ok(h) => h,
        Err(_) => unreached(),
    };
    let fields = match FieldEntry::from_fields(&item.fields, kinds) {
        Ok(fields) => fields,
        Err(_) => unreached(),
    };
    let ghost esv = entries_view(es@);
    let mut ts_all: Vec<Generated> = Vec::new();
    let mut i: usize = 0;
    while i < es.len()
        invariant
            i <= es.len(),
            ts_all.len() == i,
            esv == entries_view(es@),
            forall|j: int|
                0 <= j < i ==> (#[trigger] ts_all@[j])@ == dumped(
                    esv[j],
                    struct_impl(item@, esv[j], hattrs@, field_entries_view(fields@)),
                ),
        decreases es.len() - i,
    {
        assert(esv[i as int] == es@[i as int]@);
        let e = &es[i];
        let result = build_struct_impl(item, e, &hattrs, &fields);
        ts_all.push(e.apply_dump(result));
        i = i + 1;
    }
    assert(generated_view(ts_all@) =~= Seq::new(
        esv.len(),
        |i: int| dumped(esv[i], struct_impl(item@, esv[i], hattrs@, field_entries_view(fields@))),
    ));
    Ok(ts_all)
}

/// Expands an enum, and notes in `kinds` which helper attributes were
/// read.
pub fn build_by_item_enum_core(
    attr: Option<&AttrArgs>,
    item: &ItemEnum,
    kinds: &mut HelperAttributeKinds,
) -> (r: Result<Vec<Generated>, Vec<Diagnostic>>)
    ensures
        expansion_view(r) == enum_expansion(*old(kinds), opt_args_view(attr), item@),
        *final(kinds) == kinds_of_root(*old(kinds), opt_args_view(attr), item@.attrs),
{
    let es = match DeriveEntry::from_root(attr, &item.attrs) {
        Ok(es) => es,
        Err(d) => {
            return Err(one(d));
        },
    };
    kinds.extend(&es);
    let faults = collect_enum_faults(item, kinds);
    if faults.len() > 0 {
        return Err(faults);
    }
    proof {
        lemma_enum_without_faults_is_read(item@, *kinds);
    }
    let type_kinds = kinds.without_derive_ex();
    let hattrs = match HelperAttributes::from_attrs(
        &item.attrs,
        AttributeTarget::Type,
        &type_kinds,
    ) {
        Ok(h) => h,
        Err(_) => unreached(),
    };
    let variants = match VariantEntry::from_variants(&item.variants, kinds) {
        Ok(variants) => variants,
        Err(_) => unreached(),
    };
    let ghost esv = entries_view(es@);
    let mut ts_all: Vec<Generated> = Vec::new();
    let mut i: usize = 0;
    while i < es.len()
        invariant
            i <= es.len(),
            ts_all.len() == i,
            esv == entries_view(es@),
            forall|j: int|
                0 <= j < i ==> (#[trigger] ts_all@[j])@ == dumped(
                    esv[j],
                    enum_impl(item@, esv[j], hattrs@, variant_entries_view(variants@)),
                ),
        decreases es.len() - i,
    {
        assert(esv[i as int] == es@[i as int]@);
        let e = &es[i];
        let result = build_enum_impl(item, e, &hattrs, &variants);
        ts_all.push(e.apply_dump(result));
        i = i + 1;
    }
    assert(generated_view(ts_all@) =~= Seq::new(
        esv.len(),
        |i: int|
            dumped(esv[i], enum_impl(item@, esv[i], hattrs@, variant_entries_view(variants@))),
    ));
    Ok(ts_all)
}

} // verus!
