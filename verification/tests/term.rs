use im::Vector;
use yatima::literal::{LitType, Literal};
use yatima::primop::PrimOp;
use yatima::sexpr::{Atom, Expr, Link, Pos};
use yatima::term::Term;
use yatima::term::Term::{All, Ann, App, Cse, Dat, LTy, Lam, Let, Lit, Opr, Ref, Slf, Typ, Var};
use yatima::uses::Uses;
use yatima::StringHashMap;

fn sym(s: &str) -> Expr {
    Expr::Atom(None, Atom::Symbol(String::from(s)))
}

fn list(xs: Vec<Expr>) -> Expr {
    Expr::Cons(None, xs)
}

fn name(s: &str) -> String {
    String::from(s)
}

fn no_refs() -> StringHashMap<(Link, Link)> {
    StringHashMap::new()
}

fn at(line: u64) -> Option<Pos> {
    Some(Pos {
        from_offset: 0,
        from_line: line,
        from_column: 1,
        upto_offset: 3,
        upto_line: line,
        upto_column: 4,
    })
}

fn var(s: &str, i: u64) -> Term {
    Var(None, name(s), i)
}

fn lam(s: &str, b: Term) -> Term {
    Lam(None, name(s), Box::new(b))
}

fn app(f: Term, a: Term) -> Term {
    App(None, Box::new(f), Box::new(a))
}

#[test]
fn term_test_cases() {
    let f = Lam(None, String::from("x"), Box::new(Var(None, String::from("x"), 0)));
    // (lambda x x)
    assert_eq!(list(vec![sym("lambda"), sym("x"), sym("x")]), f.clone().encode());
    let b = App(None, Box::new(f.clone()), Box::new(f.clone()));
    // ((lambda x x) (lambda x x))
    assert_eq!(
        list(vec![
            list(vec![sym("lambda"), sym("x"), sym("x")]),
            list(vec![sym("lambda"), sym("x"), sym("x")]),
        ]),
        b.clone().encode()
    );
    assert_eq!(
        Some(Var(None, String::from("x"), 0)),
        Term::decode(no_refs(), vec![String::from("x")].into(), sym("x"))
    );
    assert_eq!(
        Some(f.clone()),
        Term::decode(no_refs(), Vector::new(), list(vec![sym("lambda"), sym("x"), sym("x")]))
    );
    assert_eq!(
        Some(b.clone()),
        Term::decode(
            no_refs(),
            Vector::new(),
            list(vec![
                list(vec![sym("lambda"), sym("x"), sym("x")]),
                list(vec![sym("lambda"), sym("x"), sym("x")]),
            ])
        )
    )
}

#[test]
fn encode_binders_and_forms() {
    let t = All(None, name("a"), Uses::Many, Box::new(Typ(None)), Box::new(var("a", 0)));
    assert_eq!(list(vec![sym("forall"), sym("a"), sym("ω"), sym("Type"), sym("a")]), t.encode());
    let t = Let(
        None,
        true,
        name("f"),
        Uses::Once,
        Box::new(Typ(None)),
        Box::new(var("f", 0)),
        Box::new(var("f", 0)),
    );
    assert_eq!(
        list(vec![sym("letrec"), sym("f"), sym("1"), sym("Type"), sym("f"), sym("f")]),
        t.encode()
    );
    let t = Let(
        None,
        false,
        name("y"),
        Uses::Zero,
        Box::new(Typ(None)),
        Box::new(Typ(None)),
        Box::new(var("y", 0)),
    );
    assert_eq!(
        list(vec![sym("let"), sym("y"), sym("0"), sym("Type"), sym("Type"), sym("y")]),
        t.encode()
    );
    let t = Slf(None, name("s"), Box::new(Dat(None, Box::new(Cse(None, Box::new(var("s", 0)))))));
    assert_eq!(
        list(vec![sym("self"), sym("s"), list(vec![sym("data"), list(vec![sym("case"), sym("s")])])]),
        t.encode()
    );
    let t = Ann(None, Box::new(Lit(None, Literal::Nat(7))), Box::new(LTy(None, LitType::Nat)));
    assert_eq!(
        list(vec![sym("::"), Expr::Atom(None, Atom::Nat(7)), sym("#Nat")]),
        t.encode()
    );
    let l = Link(1, 2, 3, 4);
    assert_eq!(sym("id"), Ref(None, name("id"), l, l).encode());
    assert_eq!(sym("#nat_add"), Opr(None, PrimOp::NatAdd).encode());
    assert_eq!(sym("&"), Uses::Affi.encode());
}

#[test]
fn decode_indices_count_binders_innermost_first() {
    // (lambda x (lambda y x)): x is one binder out
    let e = list(vec![sym("lambda"), sym("x"), list(vec![sym("lambda"), sym("y"), sym("x")])]);
    assert_eq!(Some(lam("x", lam("y", var("x", 1)))), Term::decode(no_refs(), Vector::new(), e));
    // (lambda x (lambda x x)): the inner x shadows the outer one
    let e = list(vec![sym("lambda"), sym("x"), list(vec![sym("lambda"), sym("x"), sym("x")])]);
    let t = Term::decode(no_refs(), Vector::new(), e).unwrap();
    match t {
        Lam(_, _, b) => match *b {
            Lam(_, _, v) => match *v {
                Var(_, n, i) => {
                    assert_eq!(n, "x");
                    assert_eq!(i, 0);
                },
                _ => panic!("expected a variable"),
            },
            _ => panic!("expected a lambda"),
        },
        _ => panic!("expected a lambda"),
    }
}

fn let_expr(kw: &str) -> Expr {
    list(vec![sym(kw), sym("x"), sym("ω"), sym("Type"), sym("x"), sym("x")])
}

#[test]
fn decode_let_scopes() {
    // in a let the bound expression does not see its own name
    assert_eq!(None, Term::decode(no_refs(), Vector::new(), let_expr("let")));
    // in a letrec it does
    let expected = Let(
        None,
        true,
        name("x"),
        Uses::Many,
        Box::new(Typ(None)),
        Box::new(var("x", 0)),
        Box::new(var("x", 0)),
    );
    assert_eq!(Some(expected), Term::decode(no_refs(), Vector::new(), let_expr("letrec")));
    // with x bound outside, the let's bound expression refers to the outer x
    let ctx: Vector<String> = vec![name("z"), name("x")].into();
    let t = Term::decode(no_refs(), ctx, let_expr("let")).unwrap();
    match t {
        Let(_, false, _, Uses::Many, _, x, b) => {
            assert_eq!(*x, var("x", 1));
            assert_eq!(*b, var("x", 0));
            match *x {
                Var(_, _, i) => assert_eq!(i, 1),
                _ => panic!("expected a variable"),
            }
        },
        _ => panic!("expected a let"),
    }
}

#[test]
fn decode_forall_and_self() {
    let e = list(vec![sym("forall"), sym("a"), sym("&"), sym("Type"), sym("a")]);
    let expected = All(None, name("a"), Uses::Affi, Box::new(Typ(None)), Box::new(var("a", 0)));
    assert_eq!(Some(expected), Term::decode(no_refs(), Vector::new(), e));
    let e = list(vec![sym("self"), sym("s"), list(vec![sym("case"), sym("s")])]);
    let expected = Slf(None, name("s"), Box::new(Cse(None, Box::new(var("s", 0)))));
    assert_eq!(Some(expected), Term::decode(no_refs(), Vector::new(), e));
    let e = list(vec![sym("data"), sym("Type")]);
    assert_eq!(Some(Dat(None, Box::new(Typ(None)))), Term::decode(no_refs(), Vector::new(), e));
    let e = list(vec![sym("::"), Expr::Atom(None, Atom::Int(-3)), sym("#Int")]);
    let expected = Ann(None, Box::new(Lit(None, Literal::Int(-3))), Box::new(LTy(None, LitType::Int)));
    assert_eq!(Some(expected), Term::decode(no_refs(), Vector::new(), e));
}

#[test]
fn decode_rejects_malformed() {
    // a binder name that is not a symbol
    let e = list(vec![sym("lambda"), list(vec![sym("x")]), sym("x")]);
    assert_eq!(None, Term::decode(no_refs(), Vector::new(), e));
    // an unbound name
    assert_eq!(None, Term::decode(no_refs(), Vector::new(), sym("y")));
    // an unknown multiplicity
    let e = list(vec![sym("forall"), sym("a"), sym("2"), sym("Type"), sym("a")]);
    assert_eq!(None, Term::decode(no_refs(), Vector::new(), e));
    // lists of no known shape
    assert_eq!(None, Term::decode(no_refs(), Vector::new(), list(vec![])));
    assert_eq!(None, Term::decode(no_refs(), Vector::new(), list(vec![sym("Type")])));
    let e = list(vec![sym("Type"), sym("Type"), sym("Type"), sym("Type")]);
    assert_eq!(None, Term::decode(no_refs(), Vector::new(), e));
    // a failing part makes the whole fail
    let e = list(vec![sym("Type"), sym("nope")]);
    assert_eq!(None, Term::decode(no_refs(), Vector::new(), e));
}

#[test]
fn decode_atoms_in_order_of_preference() {
    let m = Link(9, 8, 7, 6);
    let a = Link(1, 1, 1, 1);
    let mut refs = no_refs();
    refs.insert(name("id"), (m, a));
    refs.insert(name("x"), (a, m));
    let ctx: Vector<String> = vec![name("x")].into();
    // a reference
    assert_eq!(Some(Ref(None, name("id"), m, a)), Term::decode(refs, ctx.clone(), sym("id")));
    // a bound variable wins over a reference of the same name
    let mut refs = no_refs();
    refs.insert(name("x"), (a, m));
    assert_eq!(Some(var("x", 0)), Term::decode(refs, ctx.clone(), sym("x")));
    // a bound variable named Type wins over the type of types
    let tctx: Vector<String> = vec![name("Type")].into();
    assert_eq!(Some(var("Type", 0)), Term::decode(no_refs(), tctx, sym("Type")));
    assert_eq!(Some(Typ(None)), Term::decode(no_refs(), ctx.clone(), sym("Type")));
    // literals, literal types and primitive operations
    let c = Expr::Atom(None, Atom::Char('q'));
    assert_eq!(Some(Lit(None, Literal::Char('q'))), Term::decode(no_refs(), ctx.clone(), c));
    let k = Expr::Atom(None, Atom::Link(m));
    assert_eq!(Some(Lit(None, Literal::Link(m))), Term::decode(no_refs(), ctx.clone(), k));
    assert_eq!(Some(LTy(None, LitType::Link)), Term::decode(no_refs(), ctx.clone(), sym("#Link")));
    assert_eq!(Some(LTy(None, LitType::Char)), Term::decode(no_refs(), ctx.clone(), sym("#Char")));
    assert_eq!(Some(Opr(None, PrimOp::NatMul)), Term::decode(no_refs(), ctx.clone(), sym("#nat_mul")));
    assert_eq!(Some(Opr(None, PrimOp::NatEql)), Term::decode(no_refs(), ctx, sym("#nat_eql")));
}

#[test]
fn decode_keeps_positions() {
    let e = Expr::Cons(at(2), vec![sym("data"), Expr::Atom(at(3), Atom::Symbol(name("Type")))]);
    match Term::decode(no_refs(), Vector::new(), e).unwrap() {
        Dat(p, b) => {
            assert_eq!(p, at(2));
            match *b {
                Typ(q) => assert_eq!(q, at(3)),
                _ => panic!("expected Type"),
            }
        },
        _ => panic!("expected data"),
    }
}

#[test]
fn equality_ignores_positions() {
    let a = Lam(at(1), name("x"), Box::new(Var(at(2), name("x"), 0)));
    let b = lam("x", var("x", 0));
    assert_eq!(a, b);
    assert_ne!(a, lam("y", var("y", 0)));
    assert_ne!(var("x", 0), var("x", 1));
    assert_ne!(Typ(None), Dat(None, Box::new(Typ(None))));
    assert_eq!(a.clone(), a);
}

#[test]
fn encode_then_decode_gives_the_term_back() {
    let t = All(
        None,
        name("A"),
        Uses::Zero,
        Box::new(Typ(None)),
        Box::new(Let(
            None,
            true,
            name("f"),
            Uses::Many,
            Box::new(var("A", 0)),
            Box::new(lam("x", app(var("f", 1), var("x", 0)))),
            Box::new(Ann(
                None,
                Box::new(app(var("f", 0), Lit(None, Literal::Nat(3)))),
                Box::new(LTy(None, LitType::Nat)),
            )),
        )),
    );
    let back = Term::decode(no_refs(), Vector::new(), t.clone().encode());
    assert_eq!(Some(t), back);
    let s = Slf(at(5), name("s"), Box::new(Dat(at(6), Box::new(Opr(None, PrimOp::NatSub)))));
    let back = Term::decode(no_refs(), Vector::new(), s.clone().encode()).unwrap();
    assert_eq!(s, back);
}

#[test]
fn application_of_a_name_data_reads_as_data() {
    // the one shape that does not read back: a function written as `data`
    let t = app(var("data", 0), var("data", 0));
    let ctx: Vector<String> = vec![name("data")].into();
    let back = Term::decode(no_refs(), ctx, t.encode());
    assert_eq!(Some(Dat(None, Box::new(var("data", 0)))), back);
}

#[test]
fn uses_read_back() {
    for u in [Uses::Zero, Uses::Affi, Uses::Once, Uses::Many] {
        assert_eq!(Some(u), Uses::decode(&u.encode()));
    }
    assert_eq!(None, Uses::decode(&sym("2")));
    assert_eq!(None, Uses::decode(&list(vec![sym("0")])));
}
