//! How decoding and encoding of terms undo each other.
use crate::literal::{
    lemma_lit_type_decode_encode, lemma_lit_type_encode_decode, lemma_literal_decode_encode,
    lemma_literal_encode_decode, lit_type_symbol, LitType,
};
use crate::primop::{
    lemma_prim_op_decode_encode, lemma_prim_op_encode_decode, prim_op_symbol, PrimOp,
};
use crate::sexpr::{erase_expr, is_symbol, symbol_name, AtomV, ExprV, Link};
use crate::term::{
    erase, kw_case, kw_data, kw_forall, kw_lambda, kw_let, kw_letrec, kw_self, kw_type,
    spec_decode, spec_encode, well_scoped, TermV,
};
use crate::uses::{lemma_uses_decode_encode, lemma_uses_decode_ignores_position, lemma_uses_encode_decode};
use vstd::prelude::*;

verus! {

/// The keywords of the term syntax are distinct from one another and from
/// the names of literal types and primitive operations.
proof fn lemma_keywords_distinct()
    ensures
        kw_letrec() != kw_lambda(),
        kw_letrec() != kw_forall(),
        kw_lambda() != kw_forall(),
        kw_data() != kw_case(),
        kw_data() != kw_self(),
        kw_case() != kw_self(),
        kw_let() != kw_letrec(),
        forall|l: LitType| lit_type_symbol(l) != kw_type(),
        forall|o: PrimOp| prim_op_symbol(o) != kw_type(),
        forall|l: LitType, o: PrimOp| lit_type_symbol(l) != prim_op_symbol(o),
{
    assert(kw_letrec()[1] != kw_lambda()[1]);
    assert(kw_letrec()[0] != kw_forall()[0]);
    assert(kw_lambda()[0] != kw_forall()[0]);
    assert(kw_data()[0] != kw_case()[0]);
    assert(kw_data()[0] != kw_self()[0]);
    assert(kw_case()[0] != kw_self()[0]);
    assert(kw_let().len() != kw_letrec().len());
    assert forall|l: LitType| lit_type_symbol(l) != kw_type() by {
        assert(lit_type_symbol(l)[0] != kw_type()[0]);
    }
    assert forall|o: PrimOp| prim_op_symbol(o) != kw_type() by {
        assert(prim_op_symbol(o).len() != kw_type().len());
    }
    assert forall|l: LitType, o: PrimOp| lit_type_symbol(l) != prim_op_symbol(o) by {
        assert(prim_op_symbol(o).len() != lit_type_symbol(l).len());
    }
}

/// Decoding the encoding of a well-scoped term gives the term back, with its
/// source positions removed.
pub proof fn lemma_decode_encode(refs: Map<Seq<char>, (Link, Link)>, ctx: Seq<Seq<char>>, t: TermV)
    requires
        well_scoped(refs, ctx, t),
    ensures
        spec_decode(refs, ctx, spec_encode(t)) == Some(erase(t)),
    decreases t,
{
    lemma_keywords_distinct();
    match t {
        TermV::Var(_, n, i) => {},
        TermV::Lam(_, n, b) => {
            lemma_decode_encode(refs, seq![n] + ctx, *b);
        },
        TermV::App(_, f, a) => {
            lemma_decode_encode(refs, ctx, *f);
            lemma_decode_encode(refs, ctx, *a);
        },
        TermV::All(_, n, u, ty, b) => {
            lemma_uses_decode_encode(u);
            lemma_decode_encode(refs, ctx, *ty);
            lemma_decode_encode(refs, seq![n] + ctx, *b);
        },
        TermV::Slf(_, n, b) => {
            lemma_decode_encode(refs, seq![n] + ctx, *b);
        },
        TermV::Dat(_, b) => {
            lemma_decode_encode(refs, ctx, *b);
        },
        TermV::Cse(_, b) => {
            lemma_decode_encode(refs, ctx, *b);
        },
        TermV::Ref(_, n, m, a) => {},
        TermV::Let(_, r, n, u, ty, x, b) => {
            lemma_uses_decode_encode(u);
            lemma_decode_encode(refs, ctx, *ty);
            lemma_decode_encode(refs, if r { seq![n] + ctx } else { ctx }, *x);
            lemma_decode_encode(refs, seq![n] + ctx, *b);
        },
        TermV::Typ(_) => {},
        TermV::Ann(_, x, ty) => {
            lemma_decode_encode(refs, ctx, *x);
            lemma_decode_encode(refs, ctx, *ty);
        },
        TermV::Lit(_, l) => {
            lemma_literal_decode_encode(l);
        },
        TermV::LTy(_, l) => {
            lemma_lit_type_decode_encode(l);
        },
        TermV::Opr(_, o) => {
            lemma_prim_op_decode_encode(o);
            let s = prim_op_symbol(o);
            assert(LitType::spec_decode(AtomV::Symbol(s)) is None);
        },
    }
}

/// Removing positions keeps whether an expression is a given symbol, and
/// its symbol name.
proof fn lemma_erase_symbol(e: ExprV, k: Seq<char>)
    ensures
        is_symbol(erase_expr(e), k) == is_symbol(e, k),
        symbol_name(erase_expr(e)) == symbol_name(e),
{
}

/// A term decoded from an expression encodes back to that expression, with
/// its source positions removed.
pub proof fn lemma_encode_decode(refs: Map<Seq<char>, (Link, Link)>, ctx: Seq<Seq<char>>, e: ExprV)
    ensures
        spec_decode(refs, ctx, e) matches Some(t) ==> spec_encode(t) == erase_expr(e),
    decreases e,
{
    match e {
        ExprV::Atom(pos, a) => {
            lemma_literal_encode_decode(a);
            lemma_lit_type_encode_decode(a);
            lemma_prim_op_encode_decode(a);
        },
        ExprV::Cons(pos, xs) => {
            if let Some(t) = spec_decode(refs, ctx, e) {
                let ys = erase_expr(e)->Cons_1;
                assert(ys.len() == xs.len());
                assert forall|i: int| 0 <= i < xs.len() implies #[trigger] ys[i] == erase_expr(
                    xs[i],
                ) by {}
                if xs.len() >= 1 {
                    lemma_erase_symbol(xs[0], kw_letrec());
                }
                if xs.len() >= 2 {
                    lemma_erase_symbol(xs[1], kw_letrec());
                }
                if xs.len() >= 3 {
                    lemma_uses_encode_decode(xs[2]);
                }
                let nam = symbol_name(xs[1]);
                let inner = seq![nam->0] + ctx;
                match t {
                    TermV::Let(_, r, n, u, ty, x, b) => {
                        lemma_encode_decode(refs, ctx, xs[3]);
                        lemma_encode_decode(refs, ctx, xs[4]);
                        lemma_encode_decode(refs, inner, xs[4]);
                        lemma_encode_decode(refs, inner, xs[5]);
                        assert(spec_encode(t)->Cons_1 =~= ys);
                    },
                    TermV::Dat(_, b) => {
                        lemma_encode_decode(refs, ctx, xs[1]);
                        assert(spec_encode(t)->Cons_1 =~= ys);
                    },
                    TermV::Cse(_, b) => {
                        lemma_encode_decode(refs, ctx, xs[1]);
                        assert(spec_encode(t)->Cons_1 =~= ys);
                    },
                    TermV::Slf(_, n, b) => {
                        lemma_encode_decode(refs, inner, xs[2]);
                        assert(spec_encode(t)->Cons_1 =~= ys);
                    },
                    TermV::Lam(_, n, b) => {
                        lemma_encode_decode(refs, inner, xs[2]);
                        assert(spec_encode(t)->Cons_1 =~= ys);
                    },
                    TermV::All(_, n, u, ty, b) => {
                        lemma_encode_decode(refs, ctx, xs[3]);
                        lemma_encode_decode(refs, inner, xs[4]);
                        assert(spec_encode(t)->Cons_1 =~= ys);
                    },
                    TermV::Ann(_, x, ty) => {
                        lemma_encode_decode(refs, ctx, xs[1]);
                        lemma_encode_decode(refs, ctx, xs[2]);
                        assert(spec_encode(t)->Cons_1 =~= ys);
                    },
                    TermV::App(_, f, a) => {
                        lemma_encode_decode(refs, ctx, xs[0]);
                        lemma_encode_decode(refs, ctx, xs[1]);
                        assert(spec_encode(t)->Cons_1 =~= ys);
                    },
                    _ => {},
                }
            }
        },
    }
}

/// Every term decoded from an expression is well-scoped under the references
/// and binders it was decoded with, so that it reads back from its encoding.
pub proof fn lemma_decode_well_scoped(refs: Map<Seq<char>, (Link, Link)>, ctx: Seq<Seq<char>>, e: ExprV)
    ensures
        spec_decode(refs, ctx, e) matches Some(t) ==> well_scoped(refs, ctx, t),
    decreases e,
{
    match e {
        ExprV::Atom(pos, a) => {
            lemma_lit_type_encode_decode(a);
            lemma_prim_op_encode_decode(a);
        },
        ExprV::Cons(pos, xs) => {
            if let Some(t) = spec_decode(refs, ctx, e) {
                let nam = symbol_name(xs[1]);
                let inner = seq![nam->0] + ctx;
                match t {
                    TermV::Let(_, r, n, u, ty, x, b) => {
                        lemma_decode_well_scoped(refs, ctx, xs[3]);
                        lemma_decode_well_scoped(refs, ctx, xs[4]);
                        lemma_decode_well_scoped(refs, inner, xs[4]);
                        lemma_decode_well_scoped(refs, inner, xs[5]);
                    },
                    TermV::Dat(_, b) => {
                        lemma_decode_well_scoped(refs, ctx, xs[1]);
                    },
                    TermV::Cse(_, b) => {
                        lemma_decode_well_scoped(refs, ctx, xs[1]);
                    },
                    TermV::Slf(_, n, b) => {
                        lemma_decode_well_scoped(refs, inner, xs[2]);
                    },
                    TermV::Lam(_, n, b) => {
                        lemma_decode_well_scoped(refs, inner, xs[2]);
                    },
                    TermV::All(_, n, u, ty, b) => {
                        lemma_decode_well_scoped(refs, ctx, xs[3]);
                        lemma_decode_well_scoped(refs, inner, xs[4]);
                    },
                    TermV::Ann(_, x, ty) => {
                        lemma_decode_well_scoped(refs, ctx, xs[1]);
                        lemma_decode_well_scoped(refs, ctx, xs[2]);
                    },
                    TermV::App(_, f, a) => {
                        lemma_decode_well_scoped(refs, ctx, xs[0]);
                        lemma_decode_well_scoped(refs, ctx, xs[1]);
                        lemma_encode_decode(refs, ctx, xs[0]);
                        lemma_erase_symbol(xs[0], kw_data());
                        lemma_erase_symbol(xs[0], kw_case());
                    },
                    _ => {},
                }
            }
        },
    }
}

/// An optional term with every source position removed.
pub open spec fn opt_erase(t: Option<TermV>) -> Option<TermV> {
    match t {
        Some(t) => Some(erase(t)),
        None => None,
    }
}

/// Decoding does not depend on source positions: the expression with its
/// positions removed decodes exactly when the expression does, and to the
/// same term but for positions.
pub proof fn lemma_decode_ignores_positions(
    refs: Map<Seq<char>, (Link, Link)>,
    ctx: Seq<Seq<char>>,
    e: ExprV,
)
    ensures
        spec_decode(refs, ctx, erase_expr(e)) == opt_erase(spec_decode(refs, ctx, e)),
    decreases e,
{
    match e {
        ExprV::Atom(pos, a) => {},
        ExprV::Cons(pos, xs) => {
            let ys = erase_expr(e)->Cons_1;
            assert(ys.len() == xs.len());
            assert forall|i: int| 0 <= i < xs.len() implies #[trigger] ys[i] == erase_expr(xs[i]) by {}
            if xs.len() >= 1 {
                lemma_erase_symbol(xs[0], kw_letrec());
                lemma_decode_ignores_positions(refs, ctx, xs[0]);
            }
            if xs.len() >= 2 {
                lemma_erase_symbol(xs[1], kw_letrec());
                lemma_decode_ignores_positions(refs, ctx, xs[1]);
                if symbol_name(xs[1]) is Some {
                    let inner = seq![symbol_name(xs[1])->0] + ctx;
                    if xs.len() >= 3 {
                        lemma_decode_ignores_positions(refs, inner, xs[2]);
                    }
                    if xs.len() >= 5 {
                        lemma_decode_ignores_positions(refs, inner, xs[4]);
                    }
                    if xs.len() >= 6 {
                        lemma_decode_ignores_positions(refs, inner, xs[5]);
                    }
                }
            }
            if xs.len() >= 3 {
                lemma_uses_decode_ignores_position(xs[2]);
                lemma_decode_ignores_positions(refs, ctx, xs[2]);
            }
            if xs.len() >= 4 {
                lemma_decode_ignores_positions(refs, ctx, xs[3]);
            }
            if xs.len() >= 5 {
                lemma_decode_ignores_positions(refs, ctx, xs[4]);
            }
        },
    }
}

} // verus!
