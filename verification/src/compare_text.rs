//! The text of the expressions that compare or hash one field.

use vstd::prelude::*;

verus! {

/// `acc` followed by the block that hands the field to the function written
/// `by`: a local function named `f` fixes the signature that `by` must
/// have, here that of an equality test, and the block is its answer.
pub open spec fn put_partial_eq_by_eq(
    acc: Seq<char>,
    f: Seq<char>,
    ty: Seq<char>,
    this: Seq<char>,
    other: Seq<char>,
    by: Seq<char>,
) -> Seq<char> {
    acc + "{ fn "@ + f + "(this: &"@ + ty + ", other: &"@ + ty + ", eq: impl ::core::ops::Fn(&"@
        + ty + ", &"@ + ty + ") -> bool) -> bool { eq(this, other) } "@ + f + "(&"@ + this + ", &"@
        + other + ", "@ + by + ") }"@
}

/// Appends to `out` the block that hands the field to the function written
/// `by`, an equality test.
pub fn push_partial_eq_by_eq(out: &mut String, f: &str, ty: &str, this: &str, other: &str, by: &str)
    ensures
        final(out)@ == put_partial_eq_by_eq(old(out)@, f@, ty@, this@, other@, by@),
{
    out.append("{ fn ");
    out.append(f);
    out.append("(this: &");
    out.append(ty);
    out.append(", other: &");
    out.append(ty);
    out.append(", eq: impl ::core::ops::Fn(&");
    out.append(ty);
    out.append(", &");
    out.append(ty);
    out.append(") -> bool) -> bool { eq(this, other) } ");
    out.append(f);
    out.append("(&");
    out.append(this);
    out.append(", &");
    out.append(other);
    out.append(", ");
    out.append(by);
    out.append(") }");
}

/// `acc` followed by the block that hands the field to the function written
/// `by`: a local function named `f` fixes the signature that `by` must
/// have, here that of a partial comparison, and the block says whether it
/// found the two equal.
pub open spec fn put_partial_eq_by_partial_ord(
    acc: Seq<char>,
    f: Seq<char>,
    ty: Seq<char>,
    this: Seq<char>,
    other: Seq<char>,
    by: Seq<char>,
) -> Seq<char> {
    acc + "{ fn "@ + f + "(this: &"@ + ty + ", other: &"@ + ty + ", partial_cmp: impl Fn(&"@ + ty
        + ", &"@ + ty
        + ") -> ::core::option::Option<::core::cmp::Ordering>) -> bool { partial_cmp(this, other) == ::core::option::Option::Some(::core::cmp::Ordering::Equal) } "@
        + f + "(&"@ + this + ", &"@ + other + ", "@ + by + ") }"@
}

/// Appends to `out` the block that hands the field to the function written
/// `by`, a partial comparison, for an equality test.
pub fn push_partial_eq_by_partial_ord(
    out: &mut String,
    f: &str,
    ty: &str,
    this: &str,
    other: &str,
    by: &str,
)
    ensures
        final(out)@ == put_partial_eq_by_partial_ord(old(out)@, f@, ty@, this@, other@, by@),
{
    out.append("{ fn ");
    out.append(f);
    out.append("(this: &");
    out.append(ty);
    out.append(", other: &");
    out.append(ty);
    out.append(", partial_cmp: impl Fn(&");
    out.append(ty);
    out.append(", &");
    out.append(ty);
    out.append(") -> ::core::option::Option<::core::cmp::Ordering>) -> bool { partial_cmp(this, other) == ::core::option::Option::Some(::core::cmp::Ordering::Equal) } ");
    out.append(f);
    out.append("(&");
    out.append(this);
    out.append(", &");
    out.append(other);
    out.append(", ");
    out.append(by);
    out.append(") }");
}

/// `acc` followed by the block that hands the field to the function written
/// `by`: a local function named `f` fixes the signature that `by` must
/// have, here that of a total comparison, and the block says whether it
/// found the two equal.
pub open spec fn put_partial_eq_by_ord(
    acc: Seq<char>,
    f: Seq<char>,
    ty: Seq<char>,
    this: Seq<char>,
    other: Seq<char>,
    by: Seq<char>,
) -> Seq<char> {
    acc + "{ fn "@ + f + "(this: &"@ + ty + ", other: &"@ + ty + ", cmp: impl ::core::ops::Fn(&"@
        + ty + ", &"@ + ty
        + ") -> ::core::cmp::Ordering) -> bool { cmp(this, other) == ::core::cmp::Ordering::Equal } "@
        + f + "(&"@ + this + ", &"@ + other + ", "@ + by + ") }"@
}

/// Appends to `out` the block that hands the field to the function written
/// `by`, a total comparison, for an equality test.
pub fn push_partial_eq_by_ord(
    out: &mut String,
    f: &str,
    ty: &str,
    this: &str,
    other: &str,
    by: &str,
)
    ensures
        final(out)@ == put_partial_eq_by_ord(old(out)@, f@, ty@, this@, other@, by@),
{
    out.append("{ fn ");
    out.append(f);
    out.append("(this: &");
    out.append(ty);
    out.append(", other: &");
    out.append(ty);
    out.append(", cmp: impl ::core::ops::Fn(&");
    out.append(ty);
    out.append(", &");
    out.append(ty);
    out.append(") -> ::core::cmp::Ordering) -> bool { cmp(this, other) == ::core::cmp::Ordering::Equal } ");
    out.append(f);
    out.append("(&");
    out.append(this);
    out.append(", &");
    out.append(other);
    out.append(", ");
    out.append(by);
    out.append(") }");
}

/// `acc` followed by the block that hands the field to the function written
/// `by`: a local function named `f` fixes the signature that `by` must
/// have, here that of a partial comparison, and the block is its answer.
pub open spec fn put_partial_ord_by_partial_ord(
    acc: Seq<char>,
    f: Seq<char>,
    ty: Seq<char>,
    this: Seq<char>,
    other: Seq<char>,
    by: Seq<char>,
) -> Seq<char> {
    acc + "{ fn "@ + f + "(this: &"@ + ty + ", other: &"@ + ty + ", partial_cmp: impl Fn(&"@ + ty
        + ", &"@ + ty
        + ") -> ::core::option::Option<::core::cmp::Ordering>) -> ::core::option::Option<::core::cmp::Ordering> { partial_cmp(this, other) } "@
        + f + "(&"@ + this + ", &"@ + other + ", "@ + by + ") }"@
}

/// Appends to `out` the block that hands the field to the function written
/// `by`, a partial comparison.
pub fn push_partial_ord_by_partial_ord(
    out: &mut String,
    f: &str,
    ty: &str,
    this: &str,
    other: &str,
    by: &str,
)
    ensures
        final(out)@ == put_partial_ord_by_partial_ord(old(out)@, f@, ty@, this@, other@, by@),
{
    out.append("{ fn ");
    out.append(f);
    out.append("(this: &");
    out.append(ty);
    out.append(", other: &");
    out.append(ty);
    out.append(", partial_cmp: impl Fn(&");
    out.append(ty);
    out.append(", &");
    out.append(ty);
    out.append(") -> ::core::option::Option<::core::cmp::Ordering>) -> ::core::option::Option<::core::cmp::Ordering> { partial_cmp(this, other) } ");
    out.append(f);
    out.append("(&");
    out.append(this);
    out.append(", &");
    out.append(other);
    out.append(", ");
    out.append(by);
    out.append(") }");
}

/// `acc` followed by the block that hands the field to the function written
/// `by`: a local function named `f` fixes the signature that `by` must
/// have, here that of a total comparison, and the block is its answer as a
/// partial one.
pub open spec fn put_partial_ord_by_ord(
    acc: Seq<char>,
    f: Seq<char>,
    ty: Seq<char>,
    this: Seq<char>,
    other: Seq<char>,
    by: Seq<char>,
) -> Seq<char> {
    acc + "{ fn "@ + f + "(this: &"@ + ty + ", other: &"@ + ty + ", cmp: impl Fn(&"@ + ty + ", &"@
        + ty
        + ") -> ::core::cmp::Ordering) -> ::core::option::Option<::core::cmp::Ordering> { ::core::option::Option::Some(cmp(this, other)) } "@
        + f + "(&"@ + this + ", &"@ + other + ", "@ + by + ") }"@
}

/// Appends to `out` the block that hands the field to the function written
/// `by`, a total comparison, for a partial one.
pub fn push_partial_ord_by_ord(
    out: &mut String,
    f: &str,
    ty: &str,
    this: &str,
    other: &str,
    by: &str,
)
    ensures
        final(out)@ == put_partial_ord_by_ord(old(out)@, f@, ty@, this@, other@, by@),
{
    out.append("{ fn ");
    out.append(f);
    out.append("(this: &");
    out.append(ty);
    out.append(", other: &");
    out.append(ty);
    out.append(", cmp: impl Fn(&");
    out.append(ty);
    out.append(", &");
    out.append(ty);
    out.append(") -> ::core::cmp::Ordering) -> ::core::option::Option<::core::cmp::Ordering> { ::core::option::Option::Some(cmp(this, other)) } ");
    out.append(f);
    out.append("(&");
    out.append(this);
    out.append(", &");
    out.append(other);
    out.append(", ");
    out.append(by);
    out.append(") }");
}

/// `acc` followed by the block that hands the field to the function written
/// `by`: a local function named `f` fixes the signature that `by` must
/// have, here that of a total comparison, and the block is its answer.
pub open spec fn put_ord_by_ord(
    acc: Seq<char>,
    f: Seq<char>,
    ty: Seq<char>,
    this: Seq<char>,
    other: Seq<char>,
    by: Seq<char>,
) -> Seq<char> {
    acc + "{ fn "@ + f + "(this: &"@ + ty + ", other: &"@ + ty + ", cmp: impl Fn(&"@ + ty + ", &"@
        + ty + ") -> ::core::cmp::Ordering) -> ::core::cmp::Ordering { cmp(this, other) } "@ + f
        + "(&"@ + this + ", &"@ + other + ", "@ + by + ") }"@
}

/// Appends to `out` the block that hands the field to the function written
/// `by`, a total comparison.
pub fn push_ord_by_ord(out: &mut String, f: &str, ty: &str, this: &str, other: &str, by: &str)
    ensures
        final(out)@ == put_ord_by_ord(old(out)@, f@, ty@, this@, other@, by@),
{
    out.append("{ fn ");
    out.append(f);
    out.append("(this: &");
    out.append(ty);
    out.append(", other: &");
    out.append(ty);
    out.append(", cmp: impl Fn(&");
    out.append(ty);
    out.append(", &");
    out.append(ty);
    out.append(") -> ::core::cmp::Ordering) -> ::core::cmp::Ordering { cmp(this, other) } ");
    out.append(f);
    out.append("(&");
    out.append(this);
    out.append(", &");
    out.append(other);
    out.append(", ");
    out.append(by);
    out.append(") }");
}

/// `acc` followed by the block that hands the field and the hasher to the
/// function written `by`; a local function named `f` fixes the signature
/// that `by` must have.
pub open spec fn put_hash_by(
    acc: Seq<char>,
    f: Seq<char>,
    ty: Seq<char>,
    this: Seq<char>,
    by: Seq<char>,
) -> Seq<char> {
    acc + "{ fn "@ + f + "<H: ::core::hash::Hasher>(this: &"@ + ty
        + ", state: &mut H, hash: impl Fn(&"@ + ty + ", &mut H)) { hash(this, state) } "@ + f
        + "(&"@ + this + ", state, "@ + by + ") }"@
}

/// Appends to `out` the block that hands the field and the hasher to the
/// function written `by`.
pub fn push_hash_by(out: &mut String, f: &str, ty: &str, this: &str, by: &str)
    ensures
        final(out)@ == put_hash_by(old(out)@, f@, ty@, this@, by@),
{
    out.append("{ fn ");
    out.append(f);
    out.append("<H: ::core::hash::Hasher>(this: &");
    out.append(ty);
    out.append(", state: &mut H, hash: impl Fn(&");
    out.append(ty);
    out.append(", &mut H)) { hash(this, state) } ");
    out.append(f);
    out.append("(&");
    out.append(this);
    out.append(", state, ");
    out.append(by);
    out.append(") }");
}

/// `acc` followed by the call of the method at `path` on references to the
/// values written `a` and `b`.
pub open spec fn put_call_on_pair(
    acc: Seq<char>,
    path: Seq<char>,
    a: Seq<char>,
    b: Seq<char>,
) -> Seq<char> {
    acc + path + "(&("@ + a + "), &("@ + b + "))"@
}

/// Appends to `out` the call of the method at `path` on references to the
/// values written `a` and `b`.
pub fn push_call_on_pair(out: &mut String, path: &str, a: &str, b: &str)
    ensures
        final(out)@ == put_call_on_pair(old(out)@, path@, a@, b@),
{
    out.append(path);
    out.append("(&(");
    out.append(a);
    out.append("), &(");
    out.append(b);
    out.append("))");
}

/// `acc` followed by the block that compiles only if the value written `x`
/// is of a type with a total equality.
pub open spec fn put_eq_checker(acc: Seq<char>, x: Seq<char>) -> Seq<char> {
    acc + "{ fn _eq<T: Eq + ?Sized>(_this: &T) { } _eq(&("@ + x + ")) }"@
}

/// Appends to `out` the block that compiles only if the value written `x`
/// is of a type with a total equality.
pub fn push_eq_checker(out: &mut String, x: &str)
    ensures
        final(out)@ == put_eq_checker(old(out)@, x@),
{
    out.append("{ fn _eq<T: Eq + ?Sized>(_this: &T) { } _eq(&(");
    out.append(x);
    out.append(")) }");
}

/// `acc` followed by the statement that feeds the value written `x` to the
/// hasher.
pub open spec fn put_hash_stmt(acc: Seq<char>, x: Seq<char>) -> Seq<char> {
    acc + "::core::hash::Hash::hash(&("@ + x + "), state);"@
}

/// Appends to `out` the statement that feeds the value written `x` to the
/// hasher.
pub fn push_hash_stmt(out: &mut String, x: &str)
    ensures
        final(out)@ == put_hash_stmt(old(out)@, x@),
{
    out.append("::core::hash::Hash::hash(&(");
    out.append(x);
    out.append("), state);");
}

} // verus!
