//! The text of the implementations that are made from one implementation
//! of an operator written by hand.

use vstd::prelude::*;

verus! {

/// `acc` followed by the implementation of the binary operator at `path`
/// for the types written `impl_this` and `impl_rhs`, which hands its
/// operands, written `l_expr` and `r_expr`, to the implementation for the
/// types written `l` and `r`.
pub open spec fn put_binary_from_binary(
    acc: Seq<char>,
    impl_g: Seq<char>,
    path: Seq<char>,
    impl_rhs: Seq<char>,
    impl_this: Seq<char>,
    where_g: Seq<char>,
    output: Seq<char>,
    func: Seq<char>,
    l: Seq<char>,
    r: Seq<char>,
    l_expr: Seq<char>,
    r_expr: Seq<char>,
) -> Seq<char> {
    acc + "#[automatically_derived] impl "@ + impl_g + path + "<"@ + impl_rhs + "> for "@
        + impl_this + " "@ + where_g + "{ type Output = "@ + output + "; fn "@ + func
        + "(self, rhs: "@ + impl_rhs + ") -> Self::Output { <"@ + l + " as "@ + path + "<"@ + r
        + ">>::"@ + func + "("@ + l_expr + ", "@ + r_expr + ") } } "@
}

/// Appends to `out` the implementation of the binary operator at `path` for
/// the types written `impl_this` and `impl_rhs`, which hands its operands,
/// written `l_expr` and `r_expr`, to the implementation for the types
/// written `l` and `r`.
pub fn push_binary_from_binary(
    out: &mut String,
    impl_g: &str,
    path: &str,
    impl_rhs: &str,
    impl_this: &str,
    where_g: &str,
    output: &str,
    func: &str,
    l: &str,
    r: &str,
    l_expr: &str,
    r_expr: &str,
)
    ensures
        final(out)@ == put_binary_from_binary(
            old(out)@,
            impl_g@,
            path@,
            impl_rhs@,
            impl_this@,
            where_g@,
            output@,
            func@,
            l@,
            r@,
            l_expr@,
            r_expr@,
        ),
{
    out.append("#[automatically_derived] impl ");
    out.append(impl_g);
    out.append(path);
    out.append("<");
    out.append(impl_rhs);
    out.append("> for ");
    out.append(impl_this);
    out.append(" ");
    out.append(where_g);
    out.append("{ type Output = ");
    out.append(output);
    out.append("; fn ");
    out.append(func);
    out.append("(self, rhs: ");
    out.append(impl_rhs);
    out.append(") -> Self::Output { <");
    out.append(l);
    out.append(" as ");
    out.append(path);
    out.append("<");
    out.append(r);
    out.append(">>::");
    out.append(func);
    out.append("(");
    out.append(l_expr);
    out.append(", ");
    out.append(r_expr);
    out.append(") } } ");
}

/// `acc` followed by the implementation of the assigning operator at
/// `assign_path` for the type written `this`, which assigns to the receiver
/// the result of the binary operator at `path` on the receiver, written
/// `l_expr`, and the right side.
pub open spec fn put_assign_from_binary(
    acc: Seq<char>,
    impl_g: Seq<char>,
    assign_path: Seq<char>,
    rhs: Seq<char>,
    this: Seq<char>,
    where_g: Seq<char>,
    assign_func: Seq<char>,
    l: Seq<char>,
    path: Seq<char>,
    func: Seq<char>,
    l_expr: Seq<char>,
) -> Seq<char> {
    acc + "#[automatically_derived] impl "@ + impl_g + assign_path + "<"@ + rhs + "> for "@ + this
        + " "@ + where_g + "{ fn "@ + assign_func + "(&mut self, rhs: "@ + rhs + ") { *self = <"@
        + l + " as "@ + path + "<"@ + rhs + ">>::"@ + func + "("@ + l_expr + ", rhs) } } "@
}

/// Appends to `out` the implementation of the assigning operator at
/// `assign_path` for the type written `this`, which assigns to the receiver
/// the result of the binary operator at `path` on the receiver, written
/// `l_expr`, and the right side.
pub fn push_assign_from_binary(
    out: &mut String,
    impl_g: &str,
    assign_path: &str,
    rhs: &str,
    this: &str,
    where_g: &str,
    assign_func: &str,
    l: &str,
    path: &str,
    func: &str,
    l_expr: &str,
)
    ensures
        final(out)@ == put_assign_from_binary(
            old(out)@,
            impl_g@,
            assign_path@,
            rhs@,
            this@,
            where_g@,
            assign_func@,
            l@,
            path@,
            func@,
            l_expr@,
        ),
{
    out.append("#[automatically_derived] impl ");
    out.append(impl_g);
    out.append(assign_path);
    out.append("<");
    out.append(rhs);
    out.append("> for ");
    out.append(this);
    out.append(" ");
    out.append(where_g);
    out.append("{ fn ");
    out.append(assign_func);
    out.append("(&mut self, rhs: ");
    out.append(rhs);
    out.append(") { *self = <");
    out.append(l);
    out.append(" as ");
    out.append(path);
    out.append("<");
    out.append(rhs);
    out.append(">>::");
    out.append(func);
    out.append("(");
    out.append(l_expr);
    out.append(", rhs) } } ");
}

/// `acc` followed by the implementation of the binary operator at `path`
/// for the type written `this`, which applies the assigning operator at
/// `assign_path` to the receiver and returns it.
pub open spec fn put_binary_from_assign(
    acc: Seq<char>,
    impl_g: Seq<char>,
    path: Seq<char>,
    rhs: Seq<char>,
    this: Seq<char>,
    where_g: Seq<char>,
    func: Seq<char>,
    assign_path: Seq<char>,
    assign_func: Seq<char>,
) -> Seq<char> {
    acc + "#[automatically_derived] impl "@ + impl_g + path + "<"@ + rhs + "> for "@ + this + " "@
        + where_g + "{ type Output = "@ + this + "; fn "@ + func + "(mut self, rhs: "@ + rhs
        + ") -> Self::Output { <"@ + this + " as "@ + assign_path + "<"@ + rhs + ">>::"@
        + assign_func + "(&mut self, rhs); self } } "@
}

/// Appends to `out` the implementation of the binary operator at `path` for
/// the type written `this`, which applies the assigning operator at
/// `assign_path` to the receiver and returns it.
pub fn push_binary_from_assign(
    out: &mut String,
    impl_g: &str,
    path: &str,
    rhs: &str,
    this: &str,
    where_g: &str,
    func: &str,
    assign_path: &str,
    assign_func: &str,
)
    ensures
        final(out)@ == put_binary_from_assign(
            old(out)@,
            impl_g@,
            path@,
            rhs@,
            this@,
            where_g@,
            func@,
            assign_path@,
            assign_func@,
        ),
{
    out.append("#[automatically_derived] impl ");
    out.append(impl_g);
    out.append(path);
    out.append("<");
    out.append(rhs);
    out.append("> for ");
    out.append(this);
    out.append(" ");
    out.append(where_g);
    out.append("{ type Output = ");
    out.append(this);
    out.append("; fn ");
    out.append(func);
    out.append("(mut self, rhs: ");
    out.append(rhs);
    out.append(") -> Self::Output { <");
    out.append(this);
    out.append(" as ");
    out.append(assign_path);
    out.append("<");
    out.append(rhs);
    out.append(">>::");
    out.append(assign_func);
    out.append("(&mut self, rhs); self } } ");
}

} // verus!
