//! The text of the pieces that the implementations of the structural
//! traits and of the operators are put together from.

use vstd::prelude::*;

verus! {

/// `acc` followed by the head of the implementation of the trait at `path`
/// for the type named `ident`, up to the `where` clause.
pub open spec fn put_impl_open(
    acc: Seq<char>,
    impl_g: Seq<char>,
    path: Seq<char>,
    ident: Seq<char>,
    type_g: Seq<char>,
) -> Seq<char> {
    acc + "#[automatically_derived] impl "@ + impl_g + path + " for "@ + ident + " "@ + type_g
}

/// Appends to `out` the head of the implementation of the trait at `path`
/// for the type named `ident`, up to the `where` clause.
pub fn push_impl_open(out: &mut String, impl_g: &str, path: &str, ident: &str, type_g: &str)
    ensures
        final(out)@ == put_impl_open(old(out)@, impl_g@, path@, ident@, type_g@),
{
    out.append("#[automatically_derived] impl ");
    out.append(impl_g);
    out.append(path);
    out.append(" for ");
    out.append(ident);
    out.append(" ");
    out.append(type_g);
}

/// `acc` followed by the clone of the field `member`, of the type written
/// `ty`, of the receiver.
pub open spec fn put_clone_arg(acc: Seq<char>, ty: Seq<char>, member: Seq<char>) -> Seq<char> {
    acc + "<"@ + ty + " as ::core::clone::Clone>::clone(&self."@ + member + ")"@
}

/// Appends to `out` the clone of the field `member`, of the type written
/// `ty`, of the receiver.
pub fn push_clone_arg(out: &mut String, ty: &str, member: &str)
    ensures
        final(out)@ == put_clone_arg(old(out)@, ty@, member@),
{
    out.append("<");
    out.append(ty);
    out.append(" as ::core::clone::Clone>::clone(&self.");
    out.append(member);
    out.append(")");
}

/// `acc` followed by the statement that makes the field `member` of the
/// receiver a clone of the same field of `source`.
pub open spec fn put_clone_from_stmt(
    acc: Seq<char>,
    ty: Seq<char>,
    member: Seq<char>,
) -> Seq<char> {
    acc + "<"@ + ty + " as ::core::clone::Clone>::clone_from(&mut self."@ + member + ", &source."@
        + member + "); "@
}

/// Appends to `out` the statement that makes the field `member` of the
/// receiver a clone of the same field of `source`.
pub fn push_clone_from_stmt(out: &mut String, ty: &str, member: &str)
    ensures
        final(out)@ == put_clone_from_stmt(old(out)@, ty@, member@),
{
    out.append("<");
    out.append(ty);
    out.append(" as ::core::clone::Clone>::clone_from(&mut self.");
    out.append(member);
    out.append(", &source.");
    out.append(member);
    out.append("); ");
}

/// `acc` followed by the clone of what the variable `var` refers to, of the
/// type written `ty`.
pub open spec fn put_clone_var(acc: Seq<char>, ty: Seq<char>, var: Seq<char>) -> Seq<char> {
    acc + "<"@ + ty + " as ::core::clone::Clone>::clone("@ + var + ")"@
}

/// Appends to `out` the clone of what the variable `var` refers to, of the
/// type written `ty`.
pub fn push_clone_var(out: &mut String, ty: &str, var: &str)
    ensures
        final(out)@ == put_clone_var(old(out)@, ty@, var@),
{
    out.append("<");
    out.append(ty);
    out.append(" as ::core::clone::Clone>::clone(");
    out.append(var);
    out.append(")");
}

/// `acc` followed by the statement that makes what `l` refers to a clone of
/// what `r` refers to.
pub open spec fn put_clone_from_vars(
    acc: Seq<char>,
    ty: Seq<char>,
    l: Seq<char>,
    r: Seq<char>,
) -> Seq<char> {
    acc + "<"@ + ty + " as ::core::clone::Clone>::clone_from("@ + l + ", "@ + r + "); "@
}

/// Appends to `out` the statement that makes what `l` refers to a clone of
/// what `r` refers to.
pub fn push_clone_from_vars(out: &mut String, ty: &str, l: &str, r: &str)
    ensures
        final(out)@ == put_clone_from_vars(old(out)@, ty@, l@, r@),
{
    out.append("<");
    out.append(ty);
    out.append(" as ::core::clone::Clone>::clone_from(");
    out.append(l);
    out.append(", ");
    out.append(r);
    out.append("); ");
}

/// `acc` followed by the default value of the type written `ty`.
pub open spec fn put_default_arg(acc: Seq<char>, ty: Seq<char>) -> Seq<char> {
    acc + "<"@ + ty + " as ::core::default::Default>::default()"@
}

/// Appends to `out` the default value of the type written `ty`.
pub fn push_default_arg(out: &mut String, ty: &str)
    ensures
        final(out)@ == put_default_arg(old(out)@, ty@),
{
    out.append("<");
    out.append(ty);
    out.append(" as ::core::default::Default>::default()");
}

/// `acc` followed by the start of a formatter chain for what is named
/// `name`; `method` picks the formatter for named or for positional fields.
pub open spec fn put_debug_open(acc: Seq<char>, method: Seq<char>, name: Seq<char>) -> Seq<char> {
    acc + "f."@ + method + "(::core::stringify!("@ + name + "))"@
}

/// Appends to `out` the start of a formatter chain for what is named
/// `name`; `method` picks the formatter for named or for positional fields.
pub fn push_debug_open(out: &mut String, method: &str, name: &str)
    ensures
        final(out)@ == put_debug_open(old(out)@, method@, name@),
{
    out.append("f.");
    out.append(method);
    out.append("(::core::stringify!(");
    out.append(name);
    out.append("))");
}

/// `acc` followed by the link of a formatter chain that shows the value
/// written `e` as the field `member`.
pub open spec fn put_debug_named_field(
    acc: Seq<char>,
    member: Seq<char>,
    e: Seq<char>,
) -> Seq<char> {
    acc + ".field(::core::stringify!("@ + member + "), "@ + e + ")"@
}

/// Appends to `out` the link of a formatter chain that shows the value
/// written `e` as the field `member`.
pub fn push_debug_named_field(out: &mut String, member: &str, e: &str)
    ensures
        final(out)@ == put_debug_named_field(old(out)@, member@, e@),
{
    out.append(".field(::core::stringify!(");
    out.append(member);
    out.append("), ");
    out.append(e);
    out.append(")");
}

/// `acc` followed by the link of a formatter chain that shows the value
/// written `e`.
pub open spec fn put_debug_field(acc: Seq<char>, e: Seq<char>) -> Seq<char> {
    acc + ".field("@ + e + ")"@
}

/// Appends to `out` the link of a formatter chain that shows the value
/// written `e`.
pub fn push_debug_field(out: &mut String, e: &str)
    ensures
        final(out)@ == put_debug_field(old(out)@, e@),
{
    out.append(".field(");
    out.append(e);
    out.append(")");
}

/// `acc` followed by the call that formats the value written `e` in place
/// of the whole.
pub open spec fn put_debug_transparent(acc: Seq<char>, e: Seq<char>) -> Seq<char> {
    acc + "::core::fmt::Debug::fmt("@ + e + ", f)"@
}

/// Appends to `out` the call that formats the value written `e` in place of
/// the whole.
pub fn push_debug_transparent(out: &mut String, e: &str)
    ensures
        final(out)@ == put_debug_transparent(old(out)@, e@),
{
    out.append("::core::fmt::Debug::fmt(");
    out.append(e);
    out.append(", f)");
}

/// `acc` followed by the binary operator at `path`, whose method is `func`,
/// applied to the values written `lhs` and `rhs` of the types written
/// `lhs_ty` and `rhs_ty`.
pub open spec fn put_binary_value(
    acc: Seq<char>,
    lhs_ty: Seq<char>,
    path: Seq<char>,
    rhs_ty: Seq<char>,
    func: Seq<char>,
    lhs: Seq<char>,
    rhs: Seq<char>,
) -> Seq<char> {
    acc + "<"@ + lhs_ty + " as "@ + path + "<"@ + rhs_ty + ">>::"@ + func + "("@ + lhs + ", "@ + rhs
        + ")"@
}

/// Appends to `out` the binary operator at `path`, whose method is `func`,
/// applied to the values written `lhs` and `rhs` of the types written
/// `lhs_ty` and `rhs_ty`.
pub fn push_binary_value(
    out: &mut String,
    lhs_ty: &str,
    path: &str,
    rhs_ty: &str,
    func: &str,
    lhs: &str,
    rhs: &str,
)
    ensures
        final(out)@ == put_binary_value(old(out)@, lhs_ty@, path@, rhs_ty@, func@, lhs@, rhs@),
{
    out.append("<");
    out.append(lhs_ty);
    out.append(" as ");
    out.append(path);
    out.append("<");
    out.append(rhs_ty);
    out.append(">>::");
    out.append(func);
    out.append("(");
    out.append(lhs);
    out.append(", ");
    out.append(rhs);
    out.append(")");
}

/// `acc` followed by the statement that applies the assigning operator at
/// `path`, whose method is `func`, to the place written `lhs` and the value
/// written `rhs`.
pub open spec fn put_assign_stmt(
    acc: Seq<char>,
    ty: Seq<char>,
    path: Seq<char>,
    rhs_ty: Seq<char>,
    func: Seq<char>,
    lhs: Seq<char>,
    rhs: Seq<char>,
) -> Seq<char> {
    acc + "<"@ + ty + " as "@ + path + "<"@ + rhs_ty + ">>::"@ + func + "(&mut "@ + lhs + ", "@
        + rhs + "); "@
}

/// Appends to `out` the statement that applies the assigning operator at
/// `path`, whose method is `func`, to the place written `lhs` and the value
/// written `rhs`.
pub fn push_assign_stmt(
    out: &mut String,
    ty: &str,
    path: &str,
    rhs_ty: &str,
    func: &str,
    lhs: &str,
    rhs: &str,
)
    ensures
        final(out)@ == put_assign_stmt(old(out)@, ty@, path@, rhs_ty@, func@, lhs@, rhs@),
{
    out.append("<");
    out.append(ty);
    out.append(" as ");
    out.append(path);
    out.append("<");
    out.append(rhs_ty);
    out.append(">>::");
    out.append(func);
    out.append("(&mut ");
    out.append(lhs);
    out.append(", ");
    out.append(rhs);
    out.append("); ");
}

/// `acc` followed by the unary operator at `path`, whose method is `func`,
/// applied to the value written `lhs` of the type written `lhs_ty`.
pub open spec fn put_unary_value(
    acc: Seq<char>,
    lhs_ty: Seq<char>,
    path: Seq<char>,
    func: Seq<char>,
    lhs: Seq<char>,
) -> Seq<char> {
    acc + "<"@ + lhs_ty + " as "@ + path + ">::"@ + func + "("@ + lhs + ")"@
}

/// Appends to `out` the unary operator at `path`, whose method is `func`,
/// applied to the value written `lhs` of the type written `lhs_ty`.
pub fn push_unary_value(out: &mut String, lhs_ty: &str, path: &str, func: &str, lhs: &str)
    ensures
        final(out)@ == put_unary_value(old(out)@, lhs_ty@, path@, func@, lhs@),
{
    out.append("<");
    out.append(lhs_ty);
    out.append(" as ");
    out.append(path);
    out.append(">::");
    out.append(func);
    out.append("(");
    out.append(lhs);
    out.append(")");
}

} // verus!
