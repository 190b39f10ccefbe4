//! How each form of term is written and read, part by part: the encoding of
//! a term lists the encodings of its parts in the order of its fields, and a
//! list of a given form reads as the term built from what its parts read as,
//! at the list's own position, wherever its keyword and name stand.
use crate::literal::{lemma_lit_type_decode_encode, lit_type_symbol, LitType, Literal};
use crate::primop::{lemma_prim_op_decode_encode, prim_op_symbol, PrimOp};
use crate::sexpr::{is_symbol, spec_symbol, AtomV, ExprV, Link, Pos};
use crate::term::{
    kw_ann, kw_case, kw_data, kw_forall, kw_lambda, kw_let, kw_letrec, kw_self, kw_type,
    spec_decode, spec_encode, TermV,
};
use crate::uses::Uses;
use vstd::prelude::*;

verus! {

/// The encoding of each form of term: a variable, a reference, `Type`, a
/// literal, a literal type and an operation are written as a single atom; a
/// compound term as the list of its keyword, then its bound name if it binds
/// one, its multiplicity if it has one, and the encodings of its subterms in
/// the order of its fields. No encoding carries a position.
pub proof fn lemma_encode_forms(t: TermV)
    ensures
        t matches TermV::Var(_, n, _) ==> spec_encode(t) == spec_symbol(n),
        t matches TermV::Ref(_, n, _, _) ==> spec_encode(t) == spec_symbol(n),
        t matches TermV::Typ(_) ==> spec_encode(t) == spec_symbol(kw_type()),
        t matches TermV::Lit(_, l) ==> spec_encode(t) == ExprV::Atom(None, l.spec_atom()),
        t matches TermV::LTy(_, l) ==> spec_encode(t) == spec_symbol(lit_type_symbol(l)),
        t matches TermV::Opr(_, o) ==> spec_encode(t) == spec_symbol(prim_op_symbol(o)),
        t matches TermV::Lam(_, n, b) ==> spec_encode(t) == ExprV::Cons(
            None,
            seq![spec_symbol(kw_lambda()), spec_symbol(n), spec_encode(*b)],
        ),
        t matches TermV::Slf(_, n, b) ==> spec_encode(t) == ExprV::Cons(
            None,
            seq![spec_symbol(kw_self()), spec_symbol(n), spec_encode(*b)],
        ),
        t matches TermV::App(_, f, a) ==> spec_encode(t) == ExprV::Cons(
            None,
            seq![spec_encode(*f), spec_encode(*a)],
        ),
        t matches TermV::Dat(_, b) ==> spec_encode(t) == ExprV::Cons(
            None,
            seq![spec_symbol(kw_data()), spec_encode(*b)],
        ),
        t matches TermV::Cse(_, b) ==> spec_encode(t) == ExprV::Cons(
            None,
            seq![spec_symbol(kw_case()), spec_encode(*b)],
        ),
        t matches TermV::Ann(_, x, ty) ==> spec_encode(t) == ExprV::Cons(
            None,
            seq![spec_symbol(kw_ann()), spec_encode(*x), spec_encode(*ty)],
        ),
        t matches TermV::All(_, n, u, ty, b) ==> spec_encode(t) == ExprV::Cons(
            None,
            seq![
                spec_symbol(kw_forall()),
                spec_symbol(n),
                u.spec_encode(),
                spec_encode(*ty),
                spec_encode(*b),
            ],
        ),
        t matches TermV::Let(_, r, n, u, ty, x, b) ==> spec_encode(t) == ExprV::Cons(
            None,
            seq![
                spec_symbol(if r { kw_letrec() } else { kw_let() }),
                spec_symbol(n),
                u.spec_encode(),
                spec_encode(*ty),
                spec_encode(*x),
                spec_encode(*b),
            ],
        ),
{
}

/// A symbol that names a binder of the context reads, at any position, as
/// the variable at that position whose index is that of the first binder of
/// the name.
pub proof fn lemma_decode_bound_name(
    refs: Map<Seq<char>, (Link, Link)>,
    ctx: Seq<Seq<char>>,
    pos: Option<Pos>,
    n: Seq<char>,
    i: int,
)
    requires
        0 <= i < ctx.len(),
        ctx[i] == n,
        forall|j: int| 0 <= j < i ==> ctx[j] != n,
    ensures
        spec_decode(refs, ctx, ExprV::Atom(pos, AtomV::Symbol(n))) == Some(
            TermV::Var(pos, n, i as u64),
        ),
{
    ctx.index_of_first_ensures(n);
    assert(ctx.contains(n));
}

/// A symbol that names no binder but a reference reads, at any position, as
/// that reference with its links.
pub proof fn lemma_decode_reference(
    refs: Map<Seq<char>, (Link, Link)>,
    ctx: Seq<Seq<char>>,
    pos: Option<Pos>,
    n: Seq<char>,
)
    requires
        !ctx.contains(n),
        refs.contains_key(n),
    ensures
        spec_decode(refs, ctx, ExprV::Atom(pos, AtomV::Symbol(n))) == Some(
            TermV::Ref(pos, n, refs[n].0, refs[n].1),
        ),
{
    ctx.index_of_first_ensures(n);
}

/// The atom of a literal reads, at any position, as that literal.
pub proof fn lemma_decode_literal(
    refs: Map<Seq<char>, (Link, Link)>,
    ctx: Seq<Seq<char>>,
    pos: Option<Pos>,
    l: Literal,
)
    ensures
        spec_decode(refs, ctx, ExprV::Atom(pos, l.spec_atom())) == Some(TermV::Lit(pos, l)),
{
}

/// The symbols `Type`, of a literal type and of a primitive operation read,
/// at any position and when they name neither a binder nor a reference, as
/// the type of types, that literal type and that operation at that position.
pub proof fn lemma_decode_constants(
    refs: Map<Seq<char>, (Link, Link)>,
    ctx: Seq<Seq<char>>,
    pos: Option<Pos>,
    l: LitType,
    o: PrimOp,
)
    ensures
        !ctx.contains(kw_type()) && !refs.contains_key(kw_type()) ==> spec_decode(
            refs,
            ctx,
            ExprV::Atom(pos, AtomV::Symbol(kw_type())),
        ) == Some(TermV::Typ(pos)),
        !ctx.contains(lit_type_symbol(l)) && !refs.contains_key(lit_type_symbol(l)) ==> spec_decode(
            refs,
            ctx,
            ExprV::Atom(pos, AtomV::Symbol(lit_type_symbol(l))),
        ) == Some(TermV::LTy(pos, l)),
        !ctx.contains(prim_op_symbol(o)) && !refs.contains_key(prim_op_symbol(o)) ==> spec_decode(
            refs,
            ctx,
            ExprV::Atom(pos, AtomV::Symbol(prim_op_symbol(o))),
        ) == Some(TermV::Opr(pos, o)),
{
    ctx.index_of_first_ensures(kw_type());
    ctx.index_of_first_ensures(lit_type_symbol(l));
    ctx.index_of_first_ensures(prim_op_symbol(o));
    lemma_lit_type_decode_encode(l);
    lemma_prim_op_decode_encode(o);
    assert(lit_type_symbol(l)[0] != kw_type()[0]);
    assert(prim_op_symbol(o).len() != kw_type().len());
    assert(prim_op_symbol(o).len() != lit_type_symbol(l).len());
}

/// The two parts after a `lambda` or `self` keyword: a name and a body read
/// with that name bound innermost.
pub open spec fn bound_body(
    refs: Map<Seq<char>, (Link, Link)>,
    ctx: Seq<Seq<char>>,
    n: Seq<char>,
    b: ExprV,
) -> Option<TermV> {
    spec_decode(refs, seq![n] + ctx, b)
}

/// `(lambda n b)` reads as the abstraction over `n` of what `b` reads as with
/// `n` bound, and as nothing when `b` reads as nothing.
pub proof fn lemma_decode_lambda(
    refs: Map<Seq<char>, (Link, Link)>,
    ctx: Seq<Seq<char>>,
    pos: Option<Pos>,
    kp: Option<Pos>,
    np: Option<Pos>,
    n: Seq<char>,
    b: ExprV,
)
    ensures
        spec_decode(
            refs,
            ctx,
            ExprV::Cons(pos, seq![ExprV::Atom(kp, AtomV::Symbol(kw_lambda())), ExprV::Atom(np, AtomV::Symbol(n)), b]),
        ) == match bound_body(refs, ctx, n, b) {
            Some(bt) => Some(TermV::Lam(pos, n, Box::new(bt))),
            None => None,
        },
{
    assert(kw_lambda()[0] != kw_self()[0]);
}

/// `(self n b)` reads as the self type over `n` of what `b` reads as with `n`
/// bound, and as nothing when `b` reads as nothing.
pub proof fn lemma_decode_self(
    refs: Map<Seq<char>, (Link, Link)>,
    ctx: Seq<Seq<char>>,
    pos: Option<Pos>,
    kp: Option<Pos>,
    np: Option<Pos>,
    n: Seq<char>,
    b: ExprV,
)
    ensures
        spec_decode(
            refs,
            ctx,
            ExprV::Cons(pos, seq![ExprV::Atom(kp, AtomV::Symbol(kw_self())), ExprV::Atom(np, AtomV::Symbol(n)), b]),
        ) == match bound_body(refs, ctx, n, b) {
            Some(bt) => Some(TermV::Slf(pos, n, Box::new(bt))),
            None => None,
        },
{
}

/// `(data b)` and `(case b)` read as the data and case forms of what `b`
/// reads as.
pub proof fn lemma_decode_data_case(
    refs: Map<Seq<char>, (Link, Link)>,
    ctx: Seq<Seq<char>>,
    pos: Option<Pos>,
    kp: Option<Pos>,
    b: ExprV,
)
    ensures
        spec_decode(refs, ctx, ExprV::Cons(pos, seq![ExprV::Atom(kp, AtomV::Symbol(kw_data())), b]))
            == match spec_decode(refs, ctx, b) {
            Some(bt) => Some(TermV::Dat(pos, Box::new(bt))),
            None => None,
        },
        spec_decode(refs, ctx, ExprV::Cons(pos, seq![ExprV::Atom(kp, AtomV::Symbol(kw_case())), b]))
            == match spec_decode(refs, ctx, b) {
            Some(bt) => Some(TermV::Cse(pos, Box::new(bt))),
            None => None,
        },
{
    assert(kw_data()[0] != kw_case()[0]);
}

/// `(:: x t)` reads as `x` annotated with `t`: the expression first, the type
/// second.
pub proof fn lemma_decode_ann(
    refs: Map<Seq<char>, (Link, Link)>,
    ctx: Seq<Seq<char>>,
    pos: Option<Pos>,
    kp: Option<Pos>,
    x: ExprV,
    t: ExprV,
)
    ensures
        spec_decode(refs, ctx, ExprV::Cons(pos, seq![ExprV::Atom(kp, AtomV::Symbol(kw_ann())), x, t]))
            == match (spec_decode(refs, ctx, x), spec_decode(refs, ctx, t)) {
            (Some(xt), Some(tt)) => Some(TermV::Ann(pos, Box::new(xt), Box::new(tt))),
            _ => None,
        },
{
}

/// `(f a)`, where `f` is not the symbol `data` or `case`, reads as the
/// application of what `f` reads as to what `a` reads as.
pub proof fn lemma_decode_app(
    refs: Map<Seq<char>, (Link, Link)>,
    ctx: Seq<Seq<char>>,
    pos: Option<Pos>,
    f: ExprV,
    a: ExprV,
)
    requires
        !is_symbol(f, kw_data()),
        !is_symbol(f, kw_case()),
    ensures
        spec_decode(refs, ctx, ExprV::Cons(pos, seq![f, a])) == match (
            spec_decode(refs, ctx, f),
            spec_decode(refs, ctx, a),
        ) {
            (Some(ft), Some(at)) => Some(TermV::App(pos, Box::new(ft), Box::new(at))),
            _ => None,
        },
{
}

/// `(forall n u t b)` reads as the dependent function type with binder `n`
/// of multiplicity `u`, domain `t` read in the context, and body `b` read
/// with `n` bound.
pub proof fn lemma_decode_forall(
    refs: Map<Seq<char>, (Link, Link)>,
    ctx: Seq<Seq<char>>,
    pos: Option<Pos>,
    kp: Option<Pos>,
    np: Option<Pos>,
    n: Seq<char>,
    u: ExprV,
    t: ExprV,
    b: ExprV,
)
    ensures
        spec_decode(
            refs,
            ctx,
            ExprV::Cons(pos, seq![ExprV::Atom(kp, AtomV::Symbol(kw_forall())), ExprV::Atom(np, AtomV::Symbol(n)), u, t, b]),
        ) == match (Uses::spec_decode(u), spec_decode(refs, ctx, t), bound_body(refs, ctx, n, b)) {
            (Some(uu), Some(tt), Some(bt)) => Some(
                TermV::All(pos, n, uu, Box::new(tt), Box::new(bt)),
            ),
            _ => None,
        },
{
}

/// `(letrec n u t x b)` reads as the recursive definition of `n`, of
/// multiplicity `u` and type `t` (read in the context), as `x`, in `b`; both
/// `x` and `b` are read with `n` bound. `(let n u t x b)` reads the same way
/// but for `x`, which is read in the context, without `n`.
pub proof fn lemma_decode_let(
    refs: Map<Seq<char>, (Link, Link)>,
    ctx: Seq<Seq<char>>,
    pos: Option<Pos>,
    kp: Option<Pos>,
    np: Option<Pos>,
    n: Seq<char>,
    u: ExprV,
    t: ExprV,
    x: ExprV,
    b: ExprV,
)
    ensures
        spec_decode(
            refs,
            ctx,
            ExprV::Cons(pos, seq![ExprV::Atom(kp, AtomV::Symbol(kw_letrec())), ExprV::Atom(np, AtomV::Symbol(n)), u, t, x, b]),
        ) == match (
            Uses::spec_decode(u),
            spec_decode(refs, ctx, t),
            bound_body(refs, ctx, n, x),
            bound_body(refs, ctx, n, b),
        ) {
            (Some(uu), Some(tt), Some(xt), Some(bt)) => Some(
                TermV::Let(pos, true, n, uu, Box::new(tt), Box::new(xt), Box::new(bt)),
            ),
            _ => None,
        },
        spec_decode(
            refs,
            ctx,
            ExprV::Cons(pos, seq![ExprV::Atom(kp, AtomV::Symbol(kw_let())), ExprV::Atom(np, AtomV::Symbol(n)), u, t, x, b]),
        ) == match (
            Uses::spec_decode(u),
            spec_decode(refs, ctx, t),
            spec_decode(refs, ctx, x),
            bound_body(refs, ctx, n, b),
        ) {
            (Some(uu), Some(tt), Some(xt), Some(bt)) => Some(
                TermV::Let(pos, false, n, uu, Box::new(tt), Box::new(xt), Box::new(bt)),
            ),
            _ => None,
        },
{
    assert(kw_let().len() != kw_letrec().len());
}

} // verus!
