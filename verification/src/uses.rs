//! Usage multiplicities of bound variables.
use crate::sexpr::{erase_expr, spec_symbol, symbol, symbol_is, Atom, AtomV, Expr, ExprV};
use vstd::prelude::*;

verus! {

/// How many times a bound variable may be used: not at all, at most once
/// (affine), exactly once, or any number of times.
#[derive(Clone, Copy, Debug, PartialEq, Eq, Structural)]
pub enum Uses {
    Zero,
    Affi,
    Once,
    Many,
}

/// The symbol that stands for a multiplicity.
pub open spec fn uses_symbol(u: Uses) -> Seq<char> {
    match u {
        Uses::Zero => seq!['0'],
        Uses::Affi => seq!['&'],
        Uses::Once => seq!['1'],
        Uses::Many => seq!['ω'],
    }
}

/// The multiplicity that a symbol stands for, if any.
pub open spec fn uses_of_symbol(s: Seq<char>) -> Option<Uses> {
    if s == seq!['0'] {
        Some(Uses::Zero)
    } else if s == seq!['&'] {
        Some(Uses::Affi)
    } else if s == seq!['1'] {
        Some(Uses::Once)
    } else if s == seq!['ω'] {
        Some(Uses::Many)
    } else {
        None
    }
}

impl Uses {
    /// The expression that encodes a multiplicity: its symbol.
    pub open spec fn spec_encode(self) -> ExprV {
        spec_symbol(uses_symbol(self))
    }

    /// The multiplicity that an expression encodes: a symbol atom of one of
    /// the four multiplicities; any other expression encodes none.
    pub open spec fn spec_decode(e: ExprV) -> Option<Uses> {
        match e {
            ExprV::Atom(_, AtomV::Symbol(s)) => uses_of_symbol(s),
            _ => None,
        }
    }

    /// Encodes the multiplicity as the symbol `0`, `&`, `1` or `ω`.
    pub fn encode(self) -> (e: Expr)
        ensures
            e@ == self.spec_encode(),
    {
        let name = match self {
            Uses::Zero => "0",
            Uses::Affi => "&",
            Uses::Once => "1",
            Uses::Many => "ω",
        };
        proof {
            reveal_strlit("0");
            reveal_strlit("&");
            reveal_strlit("1");
            reveal_strlit("ω");
        }
        let e = symbol(name);
        assert(name@ =~= uses_symbol(self));
        e
    }

    /// Decodes a multiplicity from its symbol.
    pub fn decode(e: &Expr) -> (r: Option<Uses>)
        ensures
            r == Uses::spec_decode(e@),
    {
        proof {
            reveal_strlit("0");
            reveal_strlit("&");
            reveal_strlit("1");
            reveal_strlit("ω");
        }
        match e {
            Expr::Atom(_, Atom::Symbol(s)) => {
                if symbol_is(s, "0") {
                    assert("0"@ =~= seq!['0']);
                    Some(Uses::Zero)
                } else if symbol_is(s, "&") {
                    assert("0"@ =~= seq!['0']);
                    assert("&"@ =~= seq!['&']);
                    Some(Uses::Affi)
                } else if symbol_is(s, "1") {
                    assert("0"@ =~= seq!['0']);
                    assert("&"@ =~= seq!['&']);
                    assert("1"@ =~= seq!['1']);
                    Some(Uses::Once)
                } else if symbol_is(s, "ω") {
                    assert("0"@ =~= seq!['0']);
                    assert("&"@ =~= seq!['&']);
                    assert("1"@ =~= seq!['1']);
                    assert("ω"@ =~= seq!['ω']);
                    Some(Uses::Many)
                } else {
                    assert("0"@ =~= seq!['0']);
                    assert("&"@ =~= seq!['&']);
                    assert("1"@ =~= seq!['1']);
                    assert("ω"@ =~= seq!['ω']);
                    None
                }
            },
            _ => None,
        }
    }
}

/// Decoding the encoding of a multiplicity gives it back.
pub proof fn lemma_uses_decode_encode(u: Uses)
    ensures
        Uses::spec_decode(u.spec_encode()) == Some(u),
{
    assert(seq!['0'][0] == '0' && seq!['&'][0] == '&' && seq!['1'][0] == '1' && seq!['ω'][0] == 'ω');
}

/// A multiplicity decoded from an expression encodes back to that expression,
/// but for its position.
pub proof fn lemma_uses_encode_decode(e: ExprV)
    ensures
        Uses::spec_decode(e) matches Some(u) ==> u.spec_encode() == erase_expr(e),
{
}

/// Where an expression stands in the source does not change the multiplicity
/// it decodes to.
pub proof fn lemma_uses_decode_ignores_position(e: ExprV)
    ensures
        Uses::spec_decode(erase_expr(e)) == Uses::spec_decode(e),
{
}

} // verus!
