//! Literal values and the types of literal values.
use crate::sexpr::{spec_symbol, symbol, symbol_is, Atom, AtomV, Expr, ExprV, Link};
use vstd::prelude::*;

verus! {

/// A literal value: a natural number, an integer, a character or a link.
#[derive(Clone, Copy, Debug, PartialEq, Eq, Structural)]
pub enum Literal {
    Nat(u64),
    Int(i64),
    Char(char),
    Link(Link),
}

/// The type of a literal value.
#[derive(Clone, Copy, Debug, PartialEq, Eq, Structural)]
pub enum LitType {
    Nat,
    Int,
    Char,
    Link,
}

impl Literal {
    /// The atom that a literal is written as.
    pub open spec fn spec_atom(self) -> AtomV {
        match self {
            Literal::Nat(n) => AtomV::Nat(n),
            Literal::Int(n) => AtomV::Int(n),
            Literal::Char(c) => AtomV::Char(c),
            Literal::Link(l) => AtomV::Link(l),
        }
    }

    /// The expression that encodes a literal: its atom, with no position.
    pub open spec fn spec_encode(self) -> ExprV {
        ExprV::Atom(None, self.spec_atom())
    }

    /// The literal that an atom is: every atom but a symbol is one.
    pub open spec fn spec_decode(a: AtomV) -> Option<Literal> {
        match a {
            AtomV::Symbol(_) => None,
            AtomV::Nat(n) => Some(Literal::Nat(n)),
            AtomV::Int(n) => Some(Literal::Int(n)),
            AtomV::Char(c) => Some(Literal::Char(c)),
            AtomV::Link(l) => Some(Literal::Link(l)),
        }
    }

    /// Encodes the literal as its atom.
    pub fn encode(self) -> (e: Expr)
        ensures
            e@ == self.spec_encode(),
    {
        let a = match self {
            Literal::Nat(n) => Atom::Nat(n),
            Literal::Int(n) => Atom::Int(n),
            Literal::Char(c) => Atom::Char(c),
            Literal::Link(l) => Atom::Link(l),
        };
        Expr::Atom(None, a)
    }

    /// Decodes a literal from an atom; a symbol is no literal.
    pub fn decode(a: &Atom) -> (r: Option<Literal>)
        ensures
            r == Literal::spec_decode(a@),
    {
        match a {
            Atom::Symbol(_) => None,
            Atom::Nat(n) => Some(Literal::Nat(*n)),
            Atom::Int(n) => Some(Literal::Int(*n)),
            Atom::Char(c) => Some(Literal::Char(*c)),
            Atom::Link(l) => Some(Literal::Link(*l)),
        }
    }
}

/// The symbol that names a literal type.
pub open spec fn lit_type_symbol(t: LitType) -> Seq<char> {
    match t {
        LitType::Nat => seq!['#', 'N', 'a', 't'],
        LitType::Int => seq!['#', 'I', 'n', 't'],
        LitType::Char => seq!['#', 'C', 'h', 'a', 'r'],
        LitType::Link => seq!['#', 'L', 'i', 'n', 'k'],
    }
}

impl LitType {
    /// The expression that encodes a literal type: its symbol.
    pub open spec fn spec_encode(self) -> ExprV {
        spec_symbol(lit_type_symbol(self))
    }

    /// The literal type that an atom names, if any.
    pub open spec fn spec_decode(a: AtomV) -> Option<LitType> {
        match a {
            AtomV::Symbol(s) => if s == lit_type_symbol(LitType::Nat) {
                Some(LitType::Nat)
            } else if s == lit_type_symbol(LitType::Int) {
                Some(LitType::Int)
            } else if s == lit_type_symbol(LitType::Char) {
                Some(LitType::Char)
            } else if s == lit_type_symbol(LitType::Link) {
                Some(LitType::Link)
            } else {
                None
            },
            _ => None,
        }
    }

    /// Encodes the literal type as the symbol `#Nat`, `#Int`, `#Char` or `#Link`.
    pub fn encode(self) -> (e: Expr)
        ensures
            e@ == self.spec_encode(),
    {
        proof {
            reveal_strlit("#Nat");
            reveal_strlit("#Int");
            reveal_strlit("#Char");
            reveal_strlit("#Link");
        }
        let name = match self {
            LitType::Nat => "#Nat",
            LitType::Int => "#Int",
            LitType::Char => "#Char",
            LitType::Link => "#Link",
        };
        assert(name@ =~= lit_type_symbol(self));
        symbol(name)
    }

    /// Decodes a literal type from its symbol.
    pub fn decode(a: &Atom) -> (r: Option<LitType>)
        ensures
            r == LitType::spec_decode(a@),
    {
        proof {
            reveal_strlit("#Nat");
            reveal_strlit("#Int");
            reveal_strlit("#Char");
            reveal_strlit("#Link");
            assert("#Nat"@ =~= lit_type_symbol(LitType::Nat));
            assert("#Int"@ =~= lit_type_symbol(LitType::Int));
            assert("#Char"@ =~= lit_type_symbol(LitType::Char));
            assert("#Link"@ =~= lit_type_symbol(LitType::Link));
        }
        match a {
            Atom::Symbol(s) => {
                if symbol_is(s, "#Nat") {
                    Some(LitType::Nat)
                } else if symbol_is(s, "#Int") {
                    Some(LitType::Int)
                } else if symbol_is(s, "#Char") {
                    Some(LitType::Char)
                } else if symbol_is(s, "#Link") {
                    Some(LitType::Link)
                } else {
                    None
                }
            },
            _ => None,
        }
    }
}

/// Decoding the atom of a literal gives the literal back.
pub proof fn lemma_literal_decode_encode(l: Literal)
    ensures
        Literal::spec_decode(l.spec_atom()) == Some(l),
{
}

/// Decoding the symbol of a literal type gives the type back.
pub proof fn lemma_lit_type_decode_encode(t: LitType)
    ensures
        LitType::spec_decode(AtomV::Symbol(lit_type_symbol(t))) == Some(t),
{
    assert(lit_type_symbol(LitType::Nat)[1] == 'N');
    assert(lit_type_symbol(LitType::Int)[1] == 'I');
    assert(lit_type_symbol(LitType::Char)[1] == 'C');
    assert(lit_type_symbol(LitType::Link)[1] == 'L');
}

/// A literal decoded from an atom is written as that atom.
pub proof fn lemma_literal_encode_decode(a: AtomV)
    ensures
        Literal::spec_decode(a) matches Some(l) ==> l.spec_atom() == a,
{
}

/// A literal type decoded from an atom is named by that atom.
pub proof fn lemma_lit_type_encode_decode(a: AtomV)
    ensures
        LitType::spec_decode(a) matches Some(t) ==> a == AtomV::Symbol(lit_type_symbol(t)),
{
}

} // verus!
