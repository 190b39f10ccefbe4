//! Primitive operations on natural numbers.
use crate::sexpr::{spec_symbol, symbol, symbol_is, Atom, AtomV, Expr, ExprV};
use vstd::prelude::*;

verus! {

/// A primitive operation: addition, truncated subtraction, multiplication,
/// or equality test of natural numbers.
#[derive(Clone, Copy, Debug, PartialEq, Eq, Structural)]
pub enum PrimOp {
    NatAdd,
    NatSub,
    NatMul,
    NatEql,
}

/// The symbol that names a primitive operation.
pub open spec fn prim_op_symbol(p: PrimOp) -> Seq<char> {
    match p {
        PrimOp::NatAdd => seq!['#', 'n', 'a', 't', '_', 'a', 'd', 'd'],
        PrimOp::NatSub => seq!['#', 'n', 'a', 't', '_', 's', 'u', 'b'],
        PrimOp::NatMul => seq!['#', 'n', 'a', 't', '_', 'm', 'u', 'l'],
        PrimOp::NatEql => seq!['#', 'n', 'a', 't', '_', 'e', 'q', 'l'],
    }
}

impl PrimOp {
    /// The expression that encodes a primitive operation: its symbol.
    pub open spec fn spec_encode(self) -> ExprV {
        spec_symbol(prim_op_symbol(self))
    }

    /// The primitive operation that an atom names, if any.
    pub open spec fn spec_decode(a: AtomV) -> Option<PrimOp> {
        match a {
            AtomV::Symbol(s) => if s == prim_op_symbol(PrimOp::NatAdd) {
                Some(PrimOp::NatAdd)
            } else if s == prim_op_symbol(PrimOp::NatSub) {
                Some(PrimOp::NatSub)
            } else if s == prim_op_symbol(PrimOp::NatMul) {
                Some(PrimOp::NatMul)
            } else if s == prim_op_symbol(PrimOp::NatEql) {
                Some(PrimOp::NatEql)
            } else {
                None
            },
            _ => None,
        }
    }

    /// Encodes the operation as the symbol `#nat_add`, `#nat_sub`, `#nat_mul` or `#nat_eql`.
    pub fn encode(self) -> (e: Expr)
        ensures
            e@ == self.spec_encode(),
    {
        proof {
            reveal_strlit("#nat_add");
            reveal_strlit("#nat_sub");
            reveal_strlit("#nat_mul");
            reveal_strlit("#nat_eql");
        }
        let name = match self {
            PrimOp::NatAdd => "#nat_add",
            PrimOp::NatSub => "#nat_sub",
            PrimOp::NatMul => "#nat_mul",
            PrimOp::NatEql => "#nat_eql",
        };
        assert(name@ =~= prim_op_symbol(self));
        symbol(name)
    }

    /// Decodes a primitive operation from its symbol.
    pub fn decode(a: &Atom) -> (r: Option<PrimOp>)
        ensures
            r == PrimOp::spec_decode(a@),
    {
        proof {
            reveal_strlit("#nat_add");
            reveal_strlit("#nat_sub");
            reveal_strlit("#nat_mul");
            reveal_strlit("#nat_eql");
            assert("#nat_add"@ =~= prim_op_symbol(PrimOp::NatAdd));
            assert("#nat_sub"@ =~= prim_op_symbol(PrimOp::NatSub));
            assert("#nat_mul"@ =~= prim_op_symbol(PrimOp::NatMul));
            assert("#nat_eql"@ =~= prim_op_symbol(PrimOp::NatEql));
        }
        match a {
            Atom::Symbol(s) => {
                if symbol_is(s, "#nat_add") {
                    Some(PrimOp::NatAdd)
                } else if symbol_is(s, "#nat_sub") {
                    Some(PrimOp::NatSub)
                } else if symbol_is(s, "#nat_mul") {
                    Some(PrimOp::NatMul)
                } else if symbol_is(s, "#nat_eql") {
                    Some(PrimOp::NatEql)
                } else {
                    None
                }
            },
            _ => None,
        }
    }
}

/// Decoding the symbol of a primitive operation gives the operation back.
pub proof fn lemma_prim_op_decode_encode(p: PrimOp)
    ensures
        PrimOp::spec_decode(AtomV::Symbol(prim_op_symbol(p))) == Some(p),
{
    assert(prim_op_symbol(PrimOp::NatAdd)[5] == 'a');
    assert(prim_op_symbol(PrimOp::NatSub)[5] == 's');
    assert(prim_op_symbol(PrimOp::NatMul)[5] == 'm');
    assert(prim_op_symbol(PrimOp::NatEql)[5] == 'e');
}

/// A primitive operation decoded from an atom is named by that atom.
pub proof fn lemma_prim_op_encode_decode(a: AtomV)
    ensures
        PrimOp::spec_decode(a) matches Some(p) ==> a == AtomV::Symbol(prim_op_symbol(p)),
{
}

} // verus!
