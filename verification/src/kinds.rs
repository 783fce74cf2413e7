//! The traits that can be requested, by family.

use vstd::prelude::*;
use crate::common::BinaryOp;
use crate::text::{str_eq, strip_suffix, strip_suffix_spec, Diagnostic, DiagnosticView};

verus! {

/// A unary operator of `core::ops`.
#[derive(Debug, Copy, Clone, Hash, Eq, PartialEq, Ord, PartialOrd, Structural)]
pub enum UnaryOp {
    Neg,
    Not,
}

impl UnaryOp {
    /// The name of the operator's trait.
    pub open spec fn name(self) -> Seq<char> {
        match self {
            UnaryOp::Neg => "Neg"@,
            UnaryOp::Not => "Not"@,
        }
    }

    /// The name of the method that the operator's implementation defines.
    pub open spec fn func_name(self) -> Seq<char> {
        match self {
            UnaryOp::Neg => "neg"@,
            UnaryOp::Not => "not"@,
        }
    }

    /// The operator whose trait is named `s`, if there is one.
    pub open spec fn named(s: Seq<char>) -> Option<Self> {
        if s == "Neg"@ {
            Some(Self::Neg)
        } else if s == "Not"@ {
            Some(Self::Not)
        } else {
            None
        }
    }

    /// Reads the name of an operator's trait.
    pub fn from_str(s: &str) -> (r: Option<Self>)
        ensures
            r == Self::named(s@),
    {
        if str_eq(s, "Neg") {
            Some(Self::Neg)
        } else if str_eq(s, "Not") {
            Some(Self::Not)
        } else {
            None
        }
    }

    /// The name of the operator's trait.
    pub fn to_str(self) -> (r: &'static str)
        ensures
            r@ == self.name(),
    {
        match self {
            UnaryOp::Neg => "Neg",
            UnaryOp::Not => "Not",
        }
    }

    /// The name of the method that the operator's implementation defines.
    pub fn to_func_name(self) -> (r: &'static str)
        ensures
            r@ == self.func_name(),
    {
        match self {
            UnaryOp::Neg => "neg",
            UnaryOp::Not => "not",
        }
    }
}

/// A trait of the comparison family.
#[derive(Debug, Copy, Clone, Hash, Eq, PartialEq, Ord, PartialOrd, Structural)]
pub enum CompareOp {
    Ord,
    PartialOrd,
    Eq,
    PartialEq,
    Hash,
}

impl CompareOp {
    /// The traits of the family, in the order in which their helper
    /// attributes are consulted.
    pub open spec fn variants() -> Seq<CompareOp> {
        seq![
            CompareOp::Ord,
            CompareOp::PartialOrd,
            CompareOp::Eq,
            CompareOp::PartialEq,
            CompareOp::Hash,
        ]
    }

    /// The name of the trait.
    pub open spec fn name(self) -> Seq<char> {
        match self {
            CompareOp::Ord => "Ord"@,
            CompareOp::PartialOrd => "PartialOrd"@,
            CompareOp::Eq => "Eq"@,
            CompareOp::PartialEq => "PartialEq"@,
            CompareOp::Hash => "Hash"@,
        }
    }

    /// The name of the trait's helper attribute.
    pub open spec fn snake_name(self) -> Seq<char> {
        match self {
            CompareOp::Ord => "ord"@,
            CompareOp::PartialOrd => "partial_ord"@,
            CompareOp::Eq => "eq"@,
            CompareOp::PartialEq => "partial_eq"@,
            CompareOp::Hash => "hash"@,
        }
    }

    /// The full path of the trait.
    pub open spec fn path(self) -> Seq<char> {
        match self {
            CompareOp::Ord => "::core::cmp::Ord"@,
            CompareOp::PartialOrd => "::core::cmp::PartialOrd"@,
            CompareOp::Eq => "::core::cmp::Eq"@,
            CompareOp::PartialEq => "::core::cmp::PartialEq"@,
            CompareOp::Hash => "::core::hash::Hash"@,
        }
    }

    /// The trait named `s`, if there is one.
    pub open spec fn named(s: Seq<char>) -> Option<Self> {
        if s == "Ord"@ {
            Some(Self::Ord)
        } else if s == "PartialOrd"@ {
            Some(Self::PartialOrd)
        } else if s == "Eq"@ {
            Some(Self::Eq)
        } else if s == "PartialEq"@ {
            Some(Self::PartialEq)
        } else if s == "Hash"@ {
            Some(Self::Hash)
        } else {
            None
        }
    }

    /// Whether what is said for `self` at a site also shapes the
    /// implementation of `target`.
    ///
    /// `Ord` reaches every trait of the family; `PartialOrd` and `Eq` reach
    /// `PartialEq`; `Eq` reaches `Hash`; every trait reaches itself.
    pub open spec fn effects(self, target: Self) -> bool {
        match target {
            CompareOp::Ord => self == CompareOp::Ord,
            CompareOp::PartialOrd => self == CompareOp::PartialOrd || self == CompareOp::Ord,
            CompareOp::Eq => self == CompareOp::Eq || self == CompareOp::Ord,
            CompareOp::PartialEq => self != CompareOp::Hash,
            CompareOp::Hash => self == CompareOp::Hash || self == CompareOp::Eq || self
                == CompareOp::Ord,
        }
    }

    /// Reads the name of a trait of the family.
    pub fn from_str(s: &str) -> (r: Option<Self>)
        ensures
            r == Self::named(s@),
    {
        if str_eq(s, "Ord") {
            Some(Self::Ord)
        } else if str_eq(s, "PartialOrd") {
            Some(Self::PartialOrd)
        } else if str_eq(s, "Eq") {
            Some(Self::Eq)
        } else if str_eq(s, "PartialEq") {
            Some(Self::PartialEq)
        } else if str_eq(s, "Hash") {
            Some(Self::Hash)
        } else {
            None
        }
    }

    /// The full path of the trait.
    pub fn to_path(self) -> (r: &'static str)
        ensures
            r@ == self.path(),
    {
        match self {
            CompareOp::Ord => "::core::cmp::Ord",
            CompareOp::PartialOrd => "::core::cmp::PartialOrd",
            CompareOp::Eq => "::core::cmp::Eq",
            CompareOp::PartialEq => "::core::cmp::PartialEq",
            CompareOp::Hash => "::core::hash::Hash",
        }
    }

    /// The name of the trait.
    pub fn to_str(self) -> (r: &'static str)
        ensures
            r@ == self.name(),
    {
        match self {
            CompareOp::Ord => "Ord",
            CompareOp::PartialOrd => "PartialOrd",
            CompareOp::Eq => "Eq",
            CompareOp::PartialEq => "PartialEq",
            CompareOp::Hash => "Hash",
        }
    }

    /// The name of the trait's helper attribute.
    pub fn to_str_snake_case(self) -> (r: &'static str)
        ensures
            r@ == self.snake_name(),
    {
        match self {
            CompareOp::Ord => "ord",
            CompareOp::PartialOrd => "partial_ord",
            CompareOp::Eq => "eq",
            CompareOp::PartialEq => "partial_eq",
            CompareOp::Hash => "hash",
        }
    }

    /// Whether what is said for `self` at a site also shapes the
    /// implementation of `target`.
    pub fn is_effects_to(self, target: Self) -> (r: bool)
        ensures
            r == self.effects(target),
    {
        match target {
            CompareOp::Ord => matches!(self, CompareOp::Ord),
            CompareOp::PartialOrd => matches!(self, CompareOp::PartialOrd | CompareOp::Ord),
            CompareOp::Eq => matches!(self, CompareOp::Eq | CompareOp::Ord),
            CompareOp::PartialEq => matches!(
                self,
                CompareOp::PartialEq | CompareOp::Eq | CompareOp::PartialOrd | CompareOp::Ord
            ),
            CompareOp::Hash => matches!(self, CompareOp::Hash | CompareOp::Eq | CompareOp::Ord),
        }
    }
}

/// A trait that can be requested for a type.
#[derive(Debug, Copy, Clone, Hash, Eq, PartialEq, Ord, PartialOrd, Structural)]
pub enum DeriveItemKind {
    BinaryOp(BinaryOp),
    AssignOp(BinaryOp),
    UnaryOp(UnaryOp),
    CompareOp(CompareOp),
    Copy,
    Clone,
    Debug,
    Default,
    Deref,
    DerefMut,
}

impl DeriveItemKind {
    /// The trait named `s`, if it can be requested.
    ///
    /// A name that ends in `Assign` names the assigning form of the binary
    /// operator before it, or nothing.
    pub open spec fn named(s: Seq<char>) -> Option<Self> {
        if let Some(head) = strip_suffix_spec(s, "Assign"@) {
            match BinaryOp::named(head) {
                Some(op) => Some(Self::AssignOp(op)),
                None => None,
            }
        } else if let Some(op) = BinaryOp::named(s) {
            Some(Self::BinaryOp(op))
        } else if let Some(op) = UnaryOp::named(s) {
            Some(Self::UnaryOp(op))
        } else if let Some(op) = CompareOp::named(s) {
            Some(Self::CompareOp(op))
        } else if s == "Copy"@ {
            Some(Self::Copy)
        } else if s == "Clone"@ {
            Some(Self::Clone)
        } else if s == "Debug"@ {
            Some(Self::Debug)
        } else if s == "Default"@ {
            Some(Self::Default)
        } else if s == "Deref"@ {
            Some(Self::Deref)
        } else if s == "DerefMut"@ {
            Some(Self::DerefMut)
        } else {
            None
        }
    }

    /// The name of the trait.
    pub open spec fn name(self) -> Seq<char> {
        match self {
            DeriveItemKind::BinaryOp(op) => op.name(),
            DeriveItemKind::AssignOp(op) => op.name() + "Assign"@,
            DeriveItemKind::UnaryOp(op) => op.name(),
            DeriveItemKind::CompareOp(op) => op.name(),
            DeriveItemKind::Copy => "Copy"@,
            DeriveItemKind::Clone => "Clone"@,
            DeriveItemKind::Debug => "Debug"@,
            DeriveItemKind::Default => "Default"@,
            DeriveItemKind::Deref => "Deref"@,
            DeriveItemKind::DerefMut => "DerefMut"@,
        }
    }

    /// The full path of the trait.
    pub open spec fn path(self) -> Seq<char> {
        match self {
            DeriveItemKind::BinaryOp(op) => "::core::ops::"@ + op.name(),
            DeriveItemKind::AssignOp(op) => "::core::ops::"@ + op.name() + "Assign"@,
            DeriveItemKind::UnaryOp(op) => "::core::ops::"@ + op.name(),
            DeriveItemKind::CompareOp(op) => op.path(),
            DeriveItemKind::Copy => "::core::marker::Copy"@,
            DeriveItemKind::Clone => "::core::clone::Clone"@,
            DeriveItemKind::Debug => "::core::fmt::Debug"@,
            DeriveItemKind::Default => "::core::default::Default"@,
            DeriveItemKind::Deref => "::core::ops::Deref"@,
            DeriveItemKind::DerefMut => "::core::ops::DerefMut"@,
        }
    }

    /// What reading the identifier `ident`, written at `span`, gives: the
    /// trait it names, or the complaint that it names none.
    pub open spec fn of_ident(ident: Seq<char>, span: usize) -> Result<Self, DiagnosticView> {
        match Self::named(ident) {
            Some(kind) => Ok(kind),
            None => Err(DiagnosticView { span, message: "unsupported trait"@ }),
        }
    }

    /// Reads the name of a trait.
    pub fn from_str(s: &str) -> (r: Option<Self>)
        ensures
            r == Self::named(s@),
    {
        if let Some(head) = strip_suffix(s, "Assign") {
            return match BinaryOp::from_str(head.as_str()) {
                Some(op) => Some(Self::AssignOp(op)),
                None => None,
            };
        }
        if let Some(value) = BinaryOp::from_str(s) {
            return Some(Self::BinaryOp(value));
        }
        if let Some(value) = UnaryOp::from_str(s) {
            return Some(Self::UnaryOp(value));
        }
        if let Some(value) = CompareOp::from_str(s) {
            return Some(Self::CompareOp(value));
        }
        if str_eq(s, "Copy") {
            Some(Self::Copy)
        } else if str_eq(s, "Clone") {
            Some(Self::Clone)
        } else if str_eq(s, "Debug") {
            Some(Self::Debug)
        } else if str_eq(s, "Default") {
            Some(Self::Default)
        } else if str_eq(s, "Deref") {
            Some(Self::Deref)
        } else if str_eq(s, "DerefMut") {
            Some(Self::DerefMut)
        } else {
            None
        }
    }

    /// Reads an identifier written at `span` as the name of a trait.
    pub fn from_ident(ident: &str, span: usize) -> (r: Result<Self, Diagnostic>)
        ensures
            match r {
                Ok(kind) => Self::of_ident(ident@, span) == Ok::<Self, DiagnosticView>(kind),
                Err(d) => Self::of_ident(ident@, span) == Err::<Self, DiagnosticView>(d@),
            },
    {
        match Self::from_str(ident) {
            Some(value) => Ok(value),
            None => Err(Diagnostic { span, message: "unsupported trait".to_owned() }),
        }
    }

    /// The full path of the trait.
    pub fn to_path(self) -> (r: String)
        ensures
            r@ == self.path(),
    {
        match self {
            DeriveItemKind::BinaryOp(op) => {
                let mut s = "::core::ops::".to_owned();
                s.append(op.to_str());
                s
            },
            DeriveItemKind::AssignOp(op) => {
                let mut s = "::core::ops::".to_owned();
                s.append(op.to_str());
                s.append("Assign");
                s
            },
            DeriveItemKind::UnaryOp(op) => {
                let mut s = "::core::ops::".to_owned();
                s.append(op.to_str());
                s
            },
            DeriveItemKind::CompareOp(op) => op.to_path().to_owned(),
            DeriveItemKind::Copy => "::core::marker::Copy".to_owned(),
            DeriveItemKind::Clone => "::core::clone::Clone".to_owned(),
            DeriveItemKind::Debug => "::core::fmt::Debug".to_owned(),
            DeriveItemKind::Default => "::core::default::Default".to_owned(),
            DeriveItemKind::Deref => "::core::ops::Deref".to_owned(),
            DeriveItemKind::DerefMut => "::core::ops::DerefMut".to_owned(),
        }
    }

    /// The name of the trait.
    pub fn to_string(self) -> (r: String)
        ensures
            r@ == self.name(),
    {
        match self {
            DeriveItemKind::BinaryOp(op) => op.to_str().to_owned(),
            DeriveItemKind::AssignOp(op) => {
                let mut s = op.to_str().to_owned();
                s.append("Assign");
                s
            },
            DeriveItemKind::UnaryOp(op) => op.to_str().to_owned(),
            DeriveItemKind::CompareOp(op) => op.to_str().to_owned(),
            DeriveItemKind::Copy => "Copy".to_owned(),
            DeriveItemKind::Clone => "Clone".to_owned(),
            DeriveItemKind::Debug => "Debug".to_owned(),
            DeriveItemKind::Default => "Default".to_owned(),
            DeriveItemKind::Deref => "Deref".to_owned(),
            DeriveItemKind::DerefMut => "DerefMut".to_owned(),
        }
    }
}

} // verus!
