//! Synthesis of trait implementations from a structural description of a
//! type and the helper annotations attached to it.

pub mod attrs;
pub mod bound;
pub mod bound_laws;
pub mod common;
pub mod compare_body;
pub mod compare_expr;
pub mod compare_op;
pub mod compare_text;
pub mod derive_debug;
pub mod derive_default;
pub mod derive_ops;
pub mod driver;
pub mod expand;
pub mod generics;
pub mod hattrs;
pub mod helper;
pub mod impl_text;
pub mod item;
pub mod item_impl;
pub mod item_type;
pub mod kinds;
pub mod plan_laws;
pub mod resolve;
pub mod semantics;
pub mod site;
pub mod structure;
pub mod structural_text;
pub mod text;
