//! The binary operators that an implementation can be synthesized for.

use vstd::prelude::*;
use crate::text::str_eq;

verus! {

/// A binary operator of `core::ops`.
#[derive(Debug, Copy, Clone, Eq, PartialEq, Hash, Ord, PartialOrd, Structural)]
pub enum BinaryOp {
    Add,
    BitAnd,
    BitOr,
    BitXor,
    Div,
    Mul,
    Rem,
    Shl,
    Shr,
    Sub,
}

impl BinaryOp {
    /// The name of the operator's trait.
    pub open spec fn name(self) -> Seq<char> {
        match self {
            Self::Add => "Add"@,
            Self::BitAnd => "BitAnd"@,
            Self::BitOr => "BitOr"@,
            Self::BitXor => "BitXor"@,
            Self::Div => "Div"@,
            Self::Mul => "Mul"@,
            Self::Rem => "Rem"@,
            Self::Shl => "Shl"@,
            Self::Shr => "Shr"@,
            Self::Sub => "Sub"@,
        }
    }

    /// The name of the method that the operator's implementation defines.
    pub open spec fn func_name(self) -> Seq<char> {
        match self {
            Self::Add => "add"@,
            Self::BitAnd => "bitand"@,
            Self::BitOr => "bitor"@,
            Self::BitXor => "bitxor"@,
            Self::Div => "div"@,
            Self::Mul => "mul"@,
            Self::Rem => "rem"@,
            Self::Shl => "shl"@,
            Self::Shr => "shr"@,
            Self::Sub => "sub"@,
        }
    }

    /// The operator whose trait is named `s`, if there is one.
    pub open spec fn named(s: Seq<char>) -> Option<Self> {
        if s == "Add"@ {
            Some(Self::Add)
        } else if s == "BitAnd"@ {
            Some(Self::BitAnd)
        } else if s == "BitOr"@ {
            Some(Self::BitOr)
        } else if s == "BitXor"@ {
            Some(Self::BitXor)
        } else if s == "Div"@ {
            Some(Self::Div)
        } else if s == "Mul"@ {
            Some(Self::Mul)
        } else if s == "Rem"@ {
            Some(Self::Rem)
        } else if s == "Shl"@ {
            Some(Self::Shl)
        } else if s == "Shr"@ {
            Some(Self::Shr)
        } else if s == "Sub"@ {
            Some(Self::Sub)
        } else {
            None
        }
    }

    /// Reads the name of an operator's trait.
    pub fn from_str(s: &str) -> (r: Option<Self>)
        ensures
            r == Self::named(s@),
    {
        if str_eq(s, "Add") {
            Some(Self::Add)
        } else if str_eq(s, "BitAnd") {
            Some(Self::BitAnd)
        } else if str_eq(s, "BitOr") {
            Some(Self::BitOr)
        } else if str_eq(s, "BitXor") {
            Some(Self::BitXor)
        } else if str_eq(s, "Div") {
            Some(Self::Div)
        } else if str_eq(s, "Mul") {
            Some(Self::Mul)
        } else if str_eq(s, "Rem") {
            Some(Self::Rem)
        } else if str_eq(s, "Shl") {
            Some(Self::Shl)
        } else if str_eq(s, "Shr") {
            Some(Self::Shr)
        } else if str_eq(s, "Sub") {
            Some(Self::Sub)
        } else {
            None
        }
    }

    /// The name of the operator's trait.
    pub fn to_str(self) -> (r: &'static str)
        ensures
            r@ == self.name(),
    {
        match self {
            Self::Add => "Add",
            Self::BitAnd => "BitAnd",
            Self::BitOr => "BitOr",
            Self::BitXor => "BitXor",
            Self::Div => "Div",
            Self::Mul => "Mul",
            Self::Rem => "Rem",
            Self::Shl => "Shl",
            Self::Shr => "Shr",
            Self::Sub => "Sub",
        }
    }

    /// The name of the method that the operator's implementation defines.
    pub fn to_func_name(self) -> (r: &'static str)
        ensures
            r@ == self.func_name(),
    {
        match self {
            Self::Add => "add",
            Self::BitAnd => "bitand",
            Self::BitOr => "bitor",
            Self::BitXor => "bitxor",
            Self::Div => "div",
            Self::Mul => "mul",
            Self::Rem => "rem",
            Self::Shl => "shl",
            Self::Shr => "shr",
            Self::Sub => "sub",
        }
    }

    /// Reading a trait's name gives back the operator it names, and only
    /// that name is read as this operator.
    pub proof fn lemma_named_inverts_name(self, s: Seq<char>)
        ensures
            Self::named(self.name()) == Some(self),
            Self::named(s) == Some(self) <==> s == self.name(),
    {
        lemma_binary_op_names();
    }
}

/// What the names of the binary operators hold, as far as it tells them
/// apart.
pub proof fn lemma_binary_op_names()
    ensures
        "Add"@.len() == 3 && "Add"@[0] == 'A',
        "BitAnd"@.len() == 6 && "BitAnd"@[0] == 'B',
        "BitOr"@.len() == 5 && "BitOr"@[0] == 'B',
        "BitXor"@.len() == 6 && "BitXor"@[0] == 'B' && "BitXor"@[3] == 'X',
        "BitAnd"@[3] == 'A',
        "Div"@.len() == 3 && "Div"@[0] == 'D',
        "Mul"@.len() == 3 && "Mul"@[0] == 'M',
        "Rem"@.len() == 3 && "Rem"@[0] == 'R',
        "Shl"@.len() == 3 && "Shl"@[0] == 'S' && "Shl"@[1] == 'h' && "Shl"@[2] == 'l',
        "Shr"@.len() == 3 && "Shr"@[0] == 'S' && "Shr"@[1] == 'h' && "Shr"@[2] == 'r',
        "Sub"@.len() == 3 && "Sub"@[0] == 'S' && "Sub"@[1] == 'u',
{
    reveal_strlit("Add");
    reveal_strlit("BitAnd");
    reveal_strlit("BitOr");
    reveal_strlit("BitXor");
    reveal_strlit("Div");
    reveal_strlit("Mul");
    reveal_strlit("Rem");
    reveal_strlit("Shl");
    reveal_strlit("Shr");
    reveal_strlit("Sub");
}

} // verus!
