//! Terms of the core language, and their encoding as symbolic expressions.
use crate::context::{context_bind, context_find, context_names};
use crate::literal::{lit_type_symbol, LitType, Literal};
use crate::primop::{prim_op_symbol, PrimOp};
use crate::sexpr::{
    is_keyword, is_symbol, lemma_cons_view, list2, list3, list5, list6, spec_symbol, symbol,
    symbol_from, symbol_name, symbol_name_of, symbol_is, Atom, AtomV, Expr, ExprV, Link, Pos,
};
use crate::uses::Uses;
use im::Vector;
use vstd::hash_map::StringHashMap;
use vstd::prelude::*;

verus! {

/// A term. Variables are named and also carry their de Bruijn index: the
/// position of the first binder of that name in the enclosing context,
/// innermost first. Every node may carry the position of its source.
#[derive(Debug)]
pub enum Term {
    Var(Option<Pos>, String, u64),
    Lam(Option<Pos>, String, Box<Term>),
    App(Option<Pos>, Box<Term>, Box<Term>),
    All(Option<Pos>, String, Uses, Box<Term>, Box<Term>),
    Slf(Option<Pos>, String, Box<Term>),
    Dat(Option<Pos>, Box<Term>),
    Cse(Option<Pos>, Box<Term>),
    Ref(Option<Pos>, String, Link, Link),
    Let(Option<Pos>, bool, String, Uses, Box<Term>, Box<Term>, Box<Term>),
    Typ(Option<Pos>),
    Ann(Option<Pos>, Box<Term>, Box<Term>),
    Lit(Option<Pos>, Literal),
    LTy(Option<Pos>, LitType),
    Opr(Option<Pos>, PrimOp),
}

/// The mathematical value of a term: names are sequences of characters.
pub enum TermV {
    Var(Option<Pos>, Seq<char>, u64),
    Lam(Option<Pos>, Seq<char>, Box<TermV>),
    App(Option<Pos>, Box<TermV>, Box<TermV>),
    All(Option<Pos>, Seq<char>, Uses, Box<TermV>, Box<TermV>),
    Slf(Option<Pos>, Seq<char>, Box<TermV>),
    Dat(Option<Pos>, Box<TermV>),
    Cse(Option<Pos>, Box<TermV>),
    Ref(Option<Pos>, Seq<char>, Link, Link),
    Let(Option<Pos>, bool, Seq<char>, Uses, Box<TermV>, Box<TermV>, Box<TermV>),
    Typ(Option<Pos>),
    Ann(Option<Pos>, Box<TermV>, Box<TermV>),
    Lit(Option<Pos>, Literal),
    LTy(Option<Pos>, LitType),
    Opr(Option<Pos>, PrimOp),
}

/// The mathematical value of a term: its names as characters.
pub open spec fn term_view(t: Term) -> TermV
    decreases t,
{
    match t {
        Term::Var(p, n, i) => TermV::Var(p, n@, i),
        Term::Lam(p, n, b) => TermV::Lam(p, n@, Box::new(term_view(*b))),
        Term::App(p, f, a) => TermV::App(p, Box::new(term_view(*f)), Box::new(term_view(*a))),
        Term::All(p, n, u, t, b) => TermV::All(
            p,
            n@,
            u,
            Box::new(term_view(*t)),
            Box::new(term_view(*b)),
        ),
        Term::Slf(p, n, b) => TermV::Slf(p, n@, Box::new(term_view(*b))),
        Term::Dat(p, b) => TermV::Dat(p, Box::new(term_view(*b))),
        Term::Cse(p, b) => TermV::Cse(p, Box::new(term_view(*b))),
        Term::Ref(p, n, m, a) => TermV::Ref(p, n@, m, a),
        Term::Let(p, r, n, u, t, x, b) => TermV::Let(
            p,
            r,
            n@,
            u,
            Box::new(term_view(*t)),
            Box::new(term_view(*x)),
            Box::new(term_view(*b)),
        ),
        Term::Typ(p) => TermV::Typ(p),
        Term::Ann(p, x, t) => TermV::Ann(p, Box::new(term_view(*x)), Box::new(term_view(*t))),
        Term::Lit(p, l) => TermV::Lit(p, l),
        Term::LTy(p, l) => TermV::LTy(p, l),
        Term::Opr(p, o) => TermV::Opr(p, o),
    }
}

impl View for Term {
    type V = TermV;

    open spec fn view(&self) -> TermV {
        term_view(*self)
    }
}

/// The view of an optional term.
pub open spec fn opt_term_view(t: Option<Term>) -> Option<TermV> {
    match t {
        Some(t) => Some(t@),
        None => None,
    }
}

/// The term with every source position removed.
pub open spec fn erase(t: TermV) -> TermV
    decreases t,
{
    match t {
        TermV::Var(_, n, i) => TermV::Var(None, n, i),
        TermV::Lam(_, n, b) => TermV::Lam(None, n, Box::new(erase(*b))),
        TermV::App(_, f, a) => TermV::App(None, Box::new(erase(*f)), Box::new(erase(*a))),
        TermV::All(_, n, u, t, b) => TermV::All(None, n, u, Box::new(erase(*t)), Box::new(erase(*b))),
        TermV::Slf(_, n, b) => TermV::Slf(None, n, Box::new(erase(*b))),
        TermV::Dat(_, b) => TermV::Dat(None, Box::new(erase(*b))),
        TermV::Cse(_, b) => TermV::Cse(None, Box::new(erase(*b))),
        TermV::Ref(_, n, m, a) => TermV::Ref(None, n, m, a),
        TermV::Let(_, r, n, u, t, x, b) => TermV::Let(
            None,
            r,
            n,
            u,
            Box::new(erase(*t)),
            Box::new(erase(*x)),
            Box::new(erase(*b)),
        ),
        TermV::Typ(_) => TermV::Typ(None),
        TermV::Ann(_, x, t) => TermV::Ann(None, Box::new(erase(*x)), Box::new(erase(*t))),
        TermV::Lit(_, l) => TermV::Lit(None, l),
        TermV::LTy(_, l) => TermV::LTy(None, l),
        TermV::Opr(_, o) => TermV::Opr(None, o),
    }
}

/// The keyword `letrec`.
pub open spec fn kw_letrec() -> Seq<char> {
    seq!['l', 'e', 't', 'r', 'e', 'c']
}

/// The keyword `let`.
pub open spec fn kw_let() -> Seq<char> {
    seq!['l', 'e', 't']
}

/// The keyword `data`.
pub open spec fn kw_data() -> Seq<char> {
    seq!['d', 'a', 't', 'a']
}

/// The keyword `case`.
pub open spec fn kw_case() -> Seq<char> {
    seq!['c', 'a', 's', 'e']
}

/// The keyword `self`.
pub open spec fn kw_self() -> Seq<char> {
    seq!['s', 'e', 'l', 'f']
}

/// The keyword `lambda`.
pub open spec fn kw_lambda() -> Seq<char> {
    seq!['l', 'a', 'm', 'b', 'd', 'a']
}

/// The keyword `forall`.
pub open spec fn kw_forall() -> Seq<char> {
    seq!['f', 'o', 'r', 'a', 'l', 'l']
}

/// The keyword `::`, the annotation keyword.
pub open spec fn kw_ann() -> Seq<char> {
    seq![':', ':']
}

/// The keyword `Type`, the type of types.
pub open spec fn kw_type() -> Seq<char> {
    seq!['T', 'y', 'p', 'e']
}

/// The expression that a term is written as. Positions are dropped; a
/// variable or a reference is written as its name alone.
pub open spec fn spec_encode(t: TermV) -> ExprV
    decreases t,
{
    match t {
        TermV::Var(_, n, _) => spec_symbol(n),
        TermV::Lam(_, n, b) => ExprV::Cons(
            None,
            seq![spec_symbol(kw_lambda()), spec_symbol(n), spec_encode(*b)],
        ),
        TermV::App(_, f, a) => ExprV::Cons(None, seq![spec_encode(*f), spec_encode(*a)]),
        TermV::All(_, n, u, t, b) => ExprV::Cons(
            None,
            seq![
                spec_symbol(kw_forall()),
                spec_symbol(n),
                u.spec_encode(),
                spec_encode(*t),
                spec_encode(*b),
            ],
        ),
        TermV::Slf(_, n, b) => ExprV::Cons(
            None,
            seq![spec_symbol(kw_self()), spec_symbol(n), spec_encode(*b)],
        ),
        TermV::Dat(_, b) => ExprV::Cons(None, seq![spec_symbol(kw_data()), spec_encode(*b)]),
        TermV::Cse(_, b) => ExprV::Cons(None, seq![spec_symbol(kw_case()), spec_encode(*b)]),
        TermV::Ref(_, n, _, _) => spec_symbol(n),
        TermV::Let(_, r, n, u, t, x, b) => ExprV::Cons(
            None,
            seq![
                spec_symbol(if r { kw_letrec() } else { kw_let() }),
                spec_symbol(n),
                u.spec_encode(),
                spec_encode(*t),
                spec_encode(*x),
                spec_encode(*b),
            ],
        ),
        TermV::Typ(_) => spec_symbol(kw_type()),
        TermV::Ann(_, x, t) => ExprV::Cons(
            None,
            seq![spec_symbol(kw_ann()), spec_encode(*x), spec_encode(*t)],
        ),
        TermV::Lit(_, l) => l.spec_encode(),
        TermV::LTy(_, l) => l.spec_encode(),
        TermV::Opr(_, o) => o.spec_encode(),
    }
}

/// Whether `name`, written as a symbol, would read as itself rather than as
/// a variable or a reference: no binder of `ctx` and no reference of `refs`
/// has that name.
pub open spec fn unshadowed(refs: Map<Seq<char>, (Link, Link)>, ctx: Seq<Seq<char>>, name: Seq<
    char,
>) -> bool {
    ctx.index_of_first(name) is None && !refs.contains_key(name)
}

/// Whether a term reads back as itself from its encoding, under the
/// references `refs` and the binders `ctx`: each variable carries the index
/// of the first binder of its name (as a 64-bit number); each reference names no binder and is
/// held by `refs` with its links; the names that `Type`, literal types and
/// primitive operations are written as are neither bound nor references; and
/// no function of an application is written as the symbol `data` or `case`.
pub open spec fn well_scoped(refs: Map<Seq<char>, (Link, Link)>, ctx: Seq<Seq<char>>, t: TermV) -> bool
    decreases t,
{
    match t {
        TermV::Var(_, n, i) => ctx.index_of_first(n) matches Some(j) && i == j as u64,
        TermV::Lam(_, n, b) => well_scoped(refs, seq![n] + ctx, *b),
        TermV::App(_, f, a) => {
            &&& !is_symbol(spec_encode(*f), kw_data())
            &&& !is_symbol(spec_encode(*f), kw_case())
            &&& well_scoped(refs, ctx, *f)
            &&& well_scoped(refs, ctx, *a)
        },
        TermV::All(_, n, _, t, b) => well_scoped(refs, ctx, *t) && well_scoped(
            refs,
            seq![n] + ctx,
            *b,
        ),
        TermV::Slf(_, n, b) => well_scoped(refs, seq![n] + ctx, *b),
        TermV::Dat(_, b) => well_scoped(refs, ctx, *b),
        TermV::Cse(_, b) => well_scoped(refs, ctx, *b),
        TermV::Ref(_, n, m, a) => {
            &&& ctx.index_of_first(n) is None
            &&& refs.contains_key(n)
            &&& refs[n] == (m, a)
        },
        TermV::Let(_, r, n, _, t, x, b) => {
            &&& well_scoped(refs, ctx, *t)
            &&& well_scoped(refs, if r { seq![n] + ctx } else { ctx }, *x)
            &&& well_scoped(refs, seq![n] + ctx, *b)
        },
        TermV::Typ(_) => unshadowed(refs, ctx, kw_type()),
        TermV::Ann(_, x, t) => well_scoped(refs, ctx, *x) && well_scoped(refs, ctx, *t),
        TermV::Lit(_, _) => true,
        TermV::LTy(_, l) => unshadowed(refs, ctx, lit_type_symbol(l)),
        TermV::Opr(_, o) => unshadowed(refs, ctx, prim_op_symbol(o)),
    }
}

/// The term that an atom at position `pos` reads as. A symbol is, in this
/// order of preference: a variable, when it names a binder of `ctx` (its
/// index is that of the first such binder); a reference, when `refs` holds
/// it; the type of types, when it is `Type`. Any atom is then tried as a
/// literal, as a literal type and as a primitive operation.
pub open spec fn spec_decode_atom(
    refs: Map<Seq<char>, (Link, Link)>,
    ctx: Seq<Seq<char>>,
    pos: Option<Pos>,
    a: AtomV,
) -> Option<TermV> {
    if a is Symbol && ctx.index_of_first(a->Symbol_0) is Some {
        Some(TermV::Var(pos, a->Symbol_0, ctx.index_of_first(a->Symbol_0)->0 as u64))
    } else if a is Symbol && refs.contains_key(a->Symbol_0) {
        Some(TermV::Ref(pos, a->Symbol_0, refs[a->Symbol_0].0, refs[a->Symbol_0].1))
    } else if a is Symbol && a->Symbol_0 == kw_type() {
        Some(TermV::Typ(pos))
    } else if Literal::spec_decode(a) is Some {
        Some(TermV::Lit(pos, Literal::spec_decode(a)->0))
    } else if LitType::spec_decode(a) is Some {
        Some(TermV::LTy(pos, LitType::spec_decode(a)->0))
    } else if PrimOp::spec_decode(a) is Some {
        Some(TermV::Opr(pos, PrimOp::spec_decode(a)->0))
    } else {
        None
    }
}

/// The term that an expression reads as, under the references `refs` and
/// the binders `ctx` (innermost first), or `None` where it reads as no term.
/// A list is read by the first of these forms that its shape matches:
/// `(letrec x u T e b)`, `(let x u T e b)`, `(data b)`, `(case b)`,
/// `(self x b)`, `(lambda x b)`, `(forall x u T b)`, `(:: e T)`, `(f a)`.
/// The name after a binding keyword must be a symbol for the form to match;
/// once a form matches, the list reads as a term only if all its parts do.
pub open spec fn spec_decode(
    refs: Map<Seq<char>, (Link, Link)>,
    ctx: Seq<Seq<char>>,
    e: ExprV,
) -> Option<TermV>
    decreases e,
{
    match e {
        ExprV::Atom(pos, a) => spec_decode_atom(refs, ctx, pos, a),
        ExprV::Cons(pos, xs) => {
            if xs.len() == 6 && is_symbol(xs[0], kw_letrec()) && symbol_name(xs[1]) is Some {
                let nam = symbol_name(xs[1])->0;
                let inner = seq![nam] + ctx;
                match (
                    Uses::spec_decode(xs[2]),
                    spec_decode(refs, ctx, xs[3]),
                    spec_decode(refs, inner, xs[4]),
                    spec_decode(refs, inner, xs[5]),
                ) {
                    (Some(u), Some(t), Some(x), Some(b)) => Some(
                        TermV::Let(pos, true, nam, u, Box::new(t), Box::new(x), Box::new(b)),
                    ),
                    _ => None,
                }
            } else if xs.len() == 6 && is_symbol(xs[0], kw_let()) && symbol_name(xs[1]) is Some {
                let nam = symbol_name(xs[1])->0;
                let inner = seq![nam] + ctx;
                match (
                    Uses::spec_decode(xs[2]),
                    spec_decode(refs, ctx, xs[3]),
                    spec_decode(refs, ctx, xs[4]),
                    spec_decode(refs, inner, xs[5]),
                ) {
                    (Some(u), Some(t), Some(x), Some(b)) => Some(
                        TermV::Let(pos, false, nam, u, Box::new(t), Box::new(x), Box::new(b)),
                    ),
                    _ => None,
                }
            } else if xs.len() == 2 && is_symbol(xs[0], kw_data()) {
                match spec_decode(refs, ctx, xs[1]) {
                    Some(b) => Some(TermV::Dat(pos, Box::new(b))),
                    None => None,
                }
            } else if xs.len() == 2 && is_symbol(xs[0], kw_case()) {
                match spec_decode(refs, ctx, xs[1]) {
                    Some(b) => Some(TermV::Cse(pos, Box::new(b))),
                    None => None,
                }
            } else if xs.len() == 3 && is_symbol(xs[0], kw_self()) && symbol_name(xs[1]) is Some {
                let nam = symbol_name(xs[1])->0;
                match spec_decode(refs, seq![nam] + ctx, xs[2]) {
                    Some(b) => Some(TermV::Slf(pos, nam, Box::new(b))),
                    None => None,
                }
            } else if xs.len() == 3 && is_symbol(xs[0], kw_lambda()) && symbol_name(xs[1]) is Some {
                let nam = symbol_name(xs[1])->0;
                match spec_decode(refs, seq![nam] + ctx, xs[2]) {
                    Some(b) => Some(TermV::Lam(pos, nam, Box::new(b))),
                    None => None,
                }
            } else if xs.len() == 5 && is_symbol(xs[0], kw_forall()) && symbol_name(xs[1]) is Some {
                let nam = symbol_name(xs[1])->0;
                match (
                    Uses::spec_decode(xs[2]),
                    spec_decode(refs, ctx, xs[3]),
                    spec_decode(refs, seq![nam] + ctx, xs[4]),
                ) {
                    (Some(u), Some(t), Some(b)) => Some(
                        TermV::All(pos, nam, u, Box::new(t), Box::new(b)),
                    ),
                    _ => None,
                }
            } else if xs.len() == 3 && is_symbol(xs[0], kw_ann()) {
                match (spec_decode(refs, ctx, xs[1]), spec_decode(refs, ctx, xs[2])) {
                    (Some(x), Some(t)) => Some(TermV::Ann(pos, Box::new(x), Box::new(t))),
                    _ => None,
                }
            } else if xs.len() == 2 {
                match (spec_decode(refs, ctx, xs[0]), spec_decode(refs, ctx, xs[1])) {
                    (Some(f), Some(a)) => Some(TermV::App(pos, Box::new(f), Box::new(a))),
                    _ => None,
                }
            } else {
                None
            }
        },
    }
}

impl Term {
    /// Encodes the term as a symbolic expression (see `spec_encode`).
    pub fn encode(self) -> (e: Expr)
        ensures
            e@ == spec_encode(self@),
        decreases self,
    {
        proof {
            reveal_strlit("lambda");
            reveal_strlit("forall");
            reveal_strlit("self");
            reveal_strlit("data");
            reveal_strlit("case");
            reveal_strlit("letrec");
            reveal_strlit("let");
            reveal_strlit("Type");
            reveal_strlit("::");
            assert("lambda"@ =~= kw_lambda());
            assert("forall"@ =~= kw_forall());
            assert("self"@ =~= kw_self());
            assert("data"@ =~= kw_data());
            assert("case"@ =~= kw_case());
            assert("letrec"@ =~= kw_letrec());
            assert("let"@ =~= kw_let());
            assert("Type"@ =~= kw_type());
            assert("::"@ =~= kw_ann());
        }
        match self {
            Term::Var(_, nam, _) => symbol_from(nam),
            Term::Lam(_, nam, bod) => list3(symbol("lambda"), symbol_from(nam), (*bod).encode()),
            Term::App(_, fun, arg) => list2((*fun).encode(), (*arg).encode()),
            Term::All(_, nam, uses, typ, bod) => list5(
                symbol("forall"),
                symbol_from(nam),
                uses.encode(),
                (*typ).encode(),
                (*bod).encode(),
            ),
            Term::Slf(_, nam, bod) => list3(symbol("self"), symbol_from(nam), (*bod).encode()),
            Term::Dat(_, bod) => list2(symbol("data"), (*bod).encode()),
            Term::Cse(_, bod) => list2(symbol("case"), (*bod).encode()),
            Term::Ref(_, nam, _, _) => symbol_from(nam),
            Term::Let(_, rec, nam, uses, typ, exp, bod) => {
                let ctor = if rec {
                    symbol("letrec")
                } else {
                    symbol("let")
                };
                list6(
                    ctor,
                    symbol_from(nam),
                    uses.encode(),
                    (*typ).encode(),
                    (*exp).encode(),
                    (*bod).encode(),
                )
            },
            Term::Typ(_) => symbol("Type"),
            Term::Ann(_, exp, typ) => list3(symbol("::"), (*exp).encode(), (*typ).encode()),
            Term::Lit(_, lit) => lit.encode(),
            Term::LTy(_, lty) => lty.encode(),
            Term::Opr(_, opr) => opr.encode(),
        }
    }
}

/// Whether `e` is the keyword symbol `kw`; `kw_view` names its characters.
fn is_kw(e: &Expr, kw: &str, Ghost(kw_view): Ghost<Seq<char>>) -> (r: bool)
    requires
        kw@ == kw_view,
    ensures
        r == is_symbol(e@, kw_view),
{
    is_keyword(e, kw)
}

impl Term {
    /// Decodes a term from a symbolic expression, with the references `refs`
    /// and the binders `ctx`, innermost first (see `spec_decode`).
    pub fn decode(refs: StringHashMap<(Link, Link)>, ctx: Vector<String>, expr: Expr) -> (r: Option<
        Term,
    >)
        ensures
            opt_term_view(r) == spec_decode(refs@, context_names(ctx), expr@),
    {
        Term::decode_in(&refs, &ctx, &expr)
    }

    fn decode_atom(
        refs: &StringHashMap<(Link, Link)>,
        ctx: &Vector<String>,
        pos: Option<Pos>,
        val: &Atom,
    ) -> (r: Option<Term>)
        ensures
            opt_term_view(r) == spec_decode_atom(refs@, context_names(*ctx), pos, val@),
    {
        proof {
            reveal_strlit("Type");
            assert("Type"@ =~= kw_type());
        }
        if let Atom::Symbol(n) = val {
            if let Some(i) = context_find(ctx, n) {
                return Some(Term::Var(pos, n.clone(), i as u64));
            }
            if let Some(links) = refs.get(n.as_str()) {
                return Some(Term::Ref(pos, n.clone(), links.0, links.1));
            }
            if symbol_is(n, "Type") {
                return Some(Term::Typ(pos));
            }
        }
        if let Some(lit) = Literal::decode(val) {
            return Some(Term::Lit(pos, lit));
        }
        if let Some(lty) = LitType::decode(val) {
            return Some(Term::LTy(pos, lty));
        }
        if let Some(opr) = PrimOp::decode(val) {
            return Some(Term::Opr(pos, opr));
        }
        None
    }

    fn decode_in(refs: &StringHashMap<(Link, Link)>, ctx: &Vector<String>, expr: &Expr) -> (r:
        Option<Term>)
        ensures
            opt_term_view(r) == spec_decode(refs@, context_names(*ctx), expr@),
        decreases expr,
    {
        proof {
            reveal_strlit("letrec");
            reveal_strlit("let");
            reveal_strlit("data");
            reveal_strlit("case");
            reveal_strlit("self");
            reveal_strlit("lambda");
            reveal_strlit("forall");
            reveal_strlit("::");
            assert("letrec"@ =~= kw_letrec());
            assert("let"@ =~= kw_let());
            assert("data"@ =~= kw_data());
            assert("case"@ =~= kw_case());
            assert("self"@ =~= kw_self());
            assert("lambda"@ =~= kw_lambda());
            assert("forall"@ =~= kw_forall());
            assert("::"@ =~= kw_ann());
        }
        match expr {
            Expr::Atom(pos, val) => Term::decode_atom(refs, ctx, *pos, val),
            Expr::Cons(pos, xs) => {
                let pos = *pos;
                proof {
                    lemma_cons_view(pos, *xs);
                }
                let len = xs.len();
                if len == 6 && is_kw(&xs[0], "letrec", Ghost(kw_letrec())) {
                    if let Some(nam) = symbol_name_of(&xs[1]) {
                        let uses = match Uses::decode(&xs[2]) {
                            Some(u) => u,
                            None => return None,
                        };
                        let typ = match Term::decode_in(refs, ctx, &xs[3]) {
                            Some(t) => t,
                            None => return None,
                        };
                        let new_ctx = context_bind(ctx, nam.clone());
                        let exp = match Term::decode_in(refs, &new_ctx, &xs[4]) {
                            Some(t) => t,
                            None => return None,
                        };
                        let bod = match Term::decode_in(refs, &new_ctx, &xs[5]) {
                            Some(t) => t,
                            None => return None,
                        };
                        return Some(
                            Term::Let(
                                pos,
                                true,
                                nam.clone(),
                                uses,
                                Box::new(typ),
                                Box::new(exp),
                                Box::new(bod),
                            ),
                        );
                    }
                }
                if len == 6 && is_kw(&xs[0], "let", Ghost(kw_let())) {
                    if let Some(nam) = symbol_name_of(&xs[1]) {
                        let uses = match Uses::decode(&xs[2]) {
                            Some(u) => u,
                            None => return None,
                        };
                        let typ = match Term::decode_in(refs, ctx, &xs[3]) {
                            Some(t) => t,
                            None => return None,
                        };
                        let exp = match Term::decode_in(refs, ctx, &xs[4]) {
                            Some(t) => t,
                            None => return None,
                        };
                        let new_ctx = context_bind(ctx, nam.clone());
                        let bod = match Term::decode_in(refs, &new_ctx, &xs[5]) {
                            Some(t) => t,
                            None => return None,
                        };
                        return Some(
                            Term::Let(
                                pos,
                                false,
                                nam.clone(),
                                uses,
                                Box::new(typ),
                                Box::new(exp),
                                Box::new(bod),
                            ),
                        );
                    }
                }
                if len == 2 && is_kw(&xs[0], "data", Ghost(kw_data())) {
                    return match Term::decode_in(refs, ctx, &xs[1]) {
                        Some(bod) => Some(Term::Dat(pos, Box::new(bod))),
                        None => None,
                    };
                }
                if len == 2 && is_kw(&xs[0], "case", Ghost(kw_case())) {
                    return match Term::decode_in(refs, ctx, &xs[1]) {
                        Some(bod) => Some(Term::Cse(pos, Box::new(bod))),
                        None => None,
                    };
                }
                if len == 3 && is_kw(&xs[0], "self", Ghost(kw_self())) {
                    if let Some(nam) = symbol_name_of(&xs[1]) {
                        let new_ctx = context_bind(ctx, nam.clone());
                        return match Term::decode_in(refs, &new_ctx, &xs[2]) {
                            Some(bod) => Some(Term::Slf(pos, nam.clone(), Box::new(bod))),
                            None => None,
                        };
                    }
                }
                if len == 3 && is_kw(&xs[0], "lambda", Ghost(kw_lambda())) {
                    if let Some(nam) = symbol_name_of(&xs[1]) {
                        let new_ctx = context_bind(ctx, nam.clone());
                        return match Term::decode_in(refs, &new_ctx, &xs[2]) {
                            Some(bod) => Some(Term::Lam(pos, nam.clone(), Box::new(bod))),
                            None => None,
                        };
                    }
                }
                if len == 5 && is_kw(&xs[0], "forall", Ghost(kw_forall())) {
                    if let Some(nam) = symbol_name_of(&xs[1]) {
                        let uses = match Uses::decode(&xs[2]) {
                            Some(u) => u,
                            None => return None,
                        };
                        let typ = match Term::decode_in(refs, ctx, &xs[3]) {
                            Some(t) => t,
                            None => return None,
                        };
                        let new_ctx = context_bind(ctx, nam.clone());
                        let bod = match Term::decode_in(refs, &new_ctx, &xs[4]) {
                            Some(t) => t,
                            None => return None,
                        };
                        return Some(
                            Term::All(pos, nam.clone(), uses, Box::new(typ), Box::new(bod)),
                        );
                    }
                }
                if len == 3 && is_kw(&xs[0], "::", Ghost(kw_ann())) {
                    let exp = match Term::decode_in(refs, ctx, &xs[1]) {
                        Some(t) => t,
                        None => return None,
                    };
                    let typ = match Term::decode_in(refs, ctx, &xs[2]) {
                        Some(t) => t,
                        None => return None,
                    };
                    return Some(Term::Ann(pos, Box::new(exp), Box::new(typ)));
                }
                if len == 2 {
                    let fun = match Term::decode_in(refs, ctx, &xs[0]) {
                        Some(t) => t,
                        None => return None,
                    };
                    let arg = match Term::decode_in(refs, ctx, &xs[1]) {
                        Some(t) => t,
                        None => return None,
                    };
                    return Some(Term::App(pos, Box::new(fun), Box::new(arg)));
                }
                None
            },
        }
    }
}

/// Two terms are equal when they agree in everything but source positions.
impl PartialEq for Term {
    fn eq(&self, other: &Self) -> (r: bool)
        decreases self,
    {
        match (self, other) {
            (Term::Var(_, na, ia), Term::Var(_, nb, ib)) => *na == *nb && *ia == *ib,
            (Term::Lam(_, na, ba), Term::Lam(_, nb, bb)) => *na == *nb && (**ba).eq(&**bb),
            (Term::App(_, fa, aa), Term::App(_, fb, ab)) => (**fa).eq(&**fb) && (**aa).eq(&**ab),
            (Term::All(_, na, ua, ta, ba), Term::All(_, nb, ub, tb, bb)) => {
                *na == *nb && *ua == *ub && (**ta).eq(&**tb) && (**ba).eq(&**bb)
            },
            (Term::Slf(_, na, ba), Term::Slf(_, nb, bb)) => *na == *nb && (**ba).eq(&**bb),
            (Term::Dat(_, ba), Term::Dat(_, bb)) => (**ba).eq(&**bb),
            (Term::Cse(_, ba), Term::Cse(_, bb)) => (**ba).eq(&**bb),
            (Term::Ref(_, na, ma, aa), Term::Ref(_, nb, mb, ab)) => {
                *na == *nb && *ma == *mb && *aa == *ab
            },
            (Term::Let(_, ra, na, ua, ta, xa, ba), Term::Let(_, rb, nb, ub, tb, xb, bb)) => {
                *ra == *rb && *na == *nb && *ua == *ub && (**ta).eq(&**tb) && (**xa).eq(&**xb)
                    && (**ba).eq(&**bb)
            },
            (Term::Typ(_), Term::Typ(_)) => true,
            (Term::Ann(_, xa, ta), Term::Ann(_, xb, tb)) => (**xa).eq(&**xb) && (**ta).eq(&**tb),
            (Term::Lit(_, a), Term::Lit(_, b)) => *a == *b,
            (Term::LTy(_, a), Term::LTy(_, b)) => *a == *b,
            (Term::Opr(_, a), Term::Opr(_, b)) => *a == *b,
            _ => false,
        }
    }
}

impl vstd::std_specs::cmp::PartialEqSpecImpl for Term {
    open spec fn obeys_eq_spec() -> bool {
        true
    }

    open spec fn eq_spec(&self, other: &Term) -> bool {
        erase(self@) == erase(other@)
    }
}

/// A copy of a term, positions included.
impl Clone for Term {
    fn clone(&self) -> (r: Self)
        ensures
            r@ == self@,
        decreases self,
    {
        match self {
            Term::Var(p, n, i) => Term::Var(*p, n.clone(), *i),
            Term::Lam(p, n, b) => Term::Lam(*p, n.clone(), Box::new((**b).clone())),
            Term::App(p, f, a) => Term::App(*p, Box::new((**f).clone()), Box::new((**a).clone())),
            Term::All(p, n, u, t, b) => Term::All(
                *p,
                n.clone(),
                *u,
                Box::new((**t).clone()),
                Box::new((**b).clone()),
            ),
            Term::Slf(p, n, b) => Term::Slf(*p, n.clone(), Box::new((**b).clone())),
            Term::Dat(p, b) => Term::Dat(*p, Box::new((**b).clone())),
            Term::Cse(p, b) => Term::Cse(*p, Box::new((**b).clone())),
            Term::Ref(p, n, m, a) => Term::Ref(*p, n.clone(), *m, *a),
            Term::Let(p, r, n, u, t, x, b) => Term::Let(
                *p,
                *r,
                n.clone(),
                *u,
                Box::new((**t).clone()),
                Box::new((**x).clone()),
                Box::new((**b).clone()),
            ),
            Term::Typ(p) => Term::Typ(*p),
            Term::Ann(p, x, t) => Term::Ann(*p, Box::new((**x).clone()), Box::new((**t).clone())),
            Term::Lit(p, l) => Term::Lit(*p, *l),
            Term::LTy(p, l) => Term::LTy(*p, *l),
            Term::Opr(p, o) => Term::Opr(*p, *o),
        }
    }
}

} // verus!
