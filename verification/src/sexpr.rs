//! A small model of symbolic expressions: atoms, and lists of expressions,
//! each carrying an optional source position.
use vstd::prelude::*;

verus! {

/// A source span: where an expression starts and where it ends.
#[derive(Clone, Copy, Debug, PartialEq, Eq)]
pub struct Pos {
    pub from_offset: u64,
    pub from_line: u64,
    pub from_column: u64,
    pub upto_offset: u64,
    pub upto_line: u64,
    pub upto_column: u64,
}

/// A content address: the 256-bit digest of an expression, as four 64-bit
/// words, most significant first.
#[derive(Clone, Copy, Debug, PartialEq, Eq, Structural)]
pub struct Link(pub u64, pub u64, pub u64, pub u64);

/// An atom of a symbolic expression.
#[derive(Clone, Debug, PartialEq, Eq)]
pub enum Atom {
    Symbol(String),
    Nat(u64),
    Int(i64),
    Char(char),
    Link(Link),
}

/// A symbolic expression.
#[derive(Debug, PartialEq, Eq)]
pub enum Expr {
    Atom(Option<Pos>, Atom),
    Cons(Option<Pos>, Vec<Expr>),
}

/// The mathematical value of an atom: a symbol is its sequence of characters.
pub enum AtomV {
    Symbol(Seq<char>),
    Nat(u64),
    Int(i64),
    Char(char),
    Link(Link),
}

/// The mathematical value of an expression.
pub enum ExprV {
    Atom(Option<Pos>, AtomV),
    Cons(Option<Pos>, Seq<ExprV>),
}

impl View for Atom {
    type V = AtomV;

    open spec fn view(&self) -> AtomV {
        match self {
            Atom::Symbol(s) => AtomV::Symbol(s@),
            Atom::Nat(n) => AtomV::Nat(*n),
            Atom::Int(n) => AtomV::Int(*n),
            Atom::Char(c) => AtomV::Char(*c),
            Atom::Link(l) => AtomV::Link(*l),
        }
    }
}

/// The mathematical value of an expression: its symbols as characters.
pub open spec fn expr_view(e: Expr) -> ExprV
    decreases e,
{
    match e {
        Expr::Atom(p, a) => ExprV::Atom(p, a@),
        Expr::Cons(p, xs) => ExprV::Cons(
            p,
            Seq::new(xs.len() as nat, |i: int| if 0 <= i < xs.len() { expr_view(xs@[i]) } else { ExprV::Cons(None, Seq::empty()) }),
        ),
    }
}

impl View for Expr {
    type V = ExprV;

    open spec fn view(&self) -> ExprV {
        expr_view(*self)
    }
}

/// The expression with every source position removed.
pub open spec fn erase_expr(e: ExprV) -> ExprV
    decreases e,
{
    match e {
        ExprV::Atom(_, a) => ExprV::Atom(None, a),
        ExprV::Cons(_, xs) => ExprV::Cons(
            None,
            Seq::new(xs.len(), |i: int| if 0 <= i < xs.len() { erase_expr(xs[i]) } else { ExprV::Cons(None, Seq::empty()) }),
        ),
    }
}

/// Whether `e` is the symbol atom `name`, at any position.
pub open spec fn is_symbol(e: ExprV, name: Seq<char>) -> bool {
    e matches ExprV::Atom(_, AtomV::Symbol(s)) && s == name
}

/// The name of `e` if it is a symbol atom.
pub open spec fn symbol_name(e: ExprV) -> Option<Seq<char>> {
    match e {
        ExprV::Atom(_, AtomV::Symbol(s)) => Some(s),
        _ => None,
    }
}

/// The view of a list expression lists the views of its items.
pub proof fn lemma_cons_view(p: Option<Pos>, xs: Vec<Expr>)
    ensures
        Expr::Cons(p, xs)@ matches ExprV::Cons(q, ys) && q == p && ys.len() == xs.len() && (forall|i: int|
            0 <= i < xs.len() ==> #[trigger] ys[i] == xs@[i]@),
{
}

/// Whether `e` is the symbol `kw`.
pub fn is_keyword(e: &Expr, kw: &str) -> (r: bool)
    ensures
        r == is_symbol(e@, kw@),
{
    match e {
        Expr::Atom(_, Atom::Symbol(s)) => symbol_is(s, kw),
        _ => false,
    }
}

/// The name of `e` if it is a symbol atom.
pub fn symbol_name_of(e: &Expr) -> (r: Option<&String>)
    ensures
        match r {
            Some(s) => symbol_name(e@) == Some(s@),
            None => symbol_name(e@) is None,
        },
{
    match e {
        Expr::Atom(_, Atom::Symbol(s)) => Some(s),
        _ => None,
    }
}

/// The list of two expressions, with no position.
pub fn list2(a: Expr, b: Expr) -> (e: Expr)
    ensures
        e@ == ExprV::Cons(None, seq![a@, b@]),
{
    let ghost (va, vb) = (a@, b@);
    let mut v: Vec<Expr> = Vec::new();
    v.push(a);
    v.push(b);
    let e = Expr::Cons(None, v);
    proof {
        lemma_cons_view(None, v);
        assert(e@->Cons_1 =~= seq![va, vb]);
    }
    e
}

/// The list of three expressions, with no position.
pub fn list3(a: Expr, b: Expr, c: Expr) -> (e: Expr)
    ensures
        e@ == ExprV::Cons(None, seq![a@, b@, c@]),
{
    let ghost (va, vb, vc) = (a@, b@, c@);
    let mut v: Vec<Expr> = Vec::new();
    v.push(a);
    v.push(b);
    v.push(c);
    let e = Expr::Cons(None, v);
    proof {
        lemma_cons_view(None, v);
        assert(e@->Cons_1 =~= seq![va, vb, vc]);
    }
    e
}

/// The list of five expressions, with no position.
pub fn list5(a: Expr, b: Expr, c: Expr, d: Expr, f: Expr) -> (e: Expr)
    ensures
        e@ == ExprV::Cons(None, seq![a@, b@, c@, d@, f@]),
{
    let ghost (va, vb, vc, vd, vf) = (a@, b@, c@, d@, f@);
    let mut v: Vec<Expr> = Vec::new();
    v.push(a);
    v.push(b);
    v.push(c);
    v.push(d);
    v.push(f);
    let e = Expr::Cons(None, v);
    proof {
        lemma_cons_view(None, v);
        assert(e@->Cons_1 =~= seq![va, vb, vc, vd, vf]);
    }
    e
}

/// The list of six expressions, with no position.
pub fn list6(a: Expr, b: Expr, c: Expr, d: Expr, f: Expr, g: Expr) -> (e: Expr)
    ensures
        e@ == ExprV::Cons(None, seq![a@, b@, c@, d@, f@, g@]),
{
    let ghost (va, vb, vc, vd, vf, vg) = (a@, b@, c@, d@, f@, g@);
    let mut v: Vec<Expr> = Vec::new();
    v.push(a);
    v.push(b);
    v.push(c);
    v.push(d);
    v.push(f);
    v.push(g);
    let e = Expr::Cons(None, v);
    proof {
        lemma_cons_view(None, v);
        assert(e@->Cons_1 =~= seq![va, vb, vc, vd, vf, vg]);
    }
    e
}

/// The expression that is the symbol `name`, with no position.
pub open spec fn spec_symbol(name: Seq<char>) -> ExprV {
    ExprV::Atom(None, AtomV::Symbol(name))
}

/// Builds the symbol atom named `name`, with no position.
pub fn symbol(name: &str) -> (e: Expr)
    ensures
        e@ == spec_symbol(name@),
{
    Expr::Atom(None, Atom::Symbol(name.to_owned()))
}

/// Builds the symbol atom named by `name`, with no position.
pub fn symbol_from(name: String) -> (e: Expr)
    ensures
        e@ == spec_symbol(name@),
{
    Expr::Atom(None, Atom::Symbol(name))
}

/// Whether the characters of `s` are those of `lit`.
pub fn symbol_is(s: &String, lit: &str) -> (r: bool)
    ensures
        r == (s@ == lit@),
{
    let l = lit.to_owned();
    *s == l
}

} // verus!
