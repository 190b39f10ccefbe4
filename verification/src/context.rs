//! The context of bound variable names, innermost binder first, held in a
//! persistent vector.
use im::Vector;
use vstd::prelude::*;

verus! {

#[verifier::external_type_specification]
#[verifier::external_body]
#[verifier::reject_recursive_types(A)]
pub struct ExVector<A>(Vector<A>);

/// The names that a context holds, in order, each as its characters.
pub uninterp spec fn context_names(v: Vector<String>) -> Seq<Seq<char>>;

/// `Vector::len`: the number of names that the context holds.
#[verifier::external_body]
pub(crate) fn context_len(ctx: &Vector<String>) -> (n: usize)
    ensures
        n == context_names(*ctx).len(),
{
    ctx.len()
}

/// `Vector::index`: the name at position `i` (panics past the end, which the
/// `requires` rules out).
#[verifier::external_body]
pub(crate) fn context_at(ctx: &Vector<String>, i: usize) -> (r: &String)
    requires
        i < context_names(*ctx).len(),
    ensures
        r@ == context_names(*ctx)[i as int],
{
    &ctx[i]
}

/// `Vector::clone`: a context that holds the same names.
#[verifier::external_body]
pub(crate) fn context_clone(ctx: &Vector<String>) -> (r: Vector<String>)
    ensures
        context_names(r) == context_names(*ctx),
{
    ctx.clone()
}

/// `Vector::push_front`: the context with `name` put before all others.
#[verifier::external_body]
pub(crate) fn context_push_front(ctx: &mut Vector<String>, name: String)
    ensures
        context_names(*final(ctx)) == seq![name@] + context_names(*old(ctx)),
{
    ctx.push_front(name)
}

/// The context extended by one binder: a copy of `ctx` with `name` in front.
pub fn context_bind(ctx: &Vector<String>, name: String) -> (r: Vector<String>)
    ensures
        context_names(r) == seq![name@] + context_names(*ctx),
{
    let mut r = context_clone(ctx);
    context_push_front(&mut r, name);
    r
}

/// The position of the first occurrence of `name` in the context, if it
/// occurs there.
pub fn context_find(ctx: &Vector<String>, name: &String) -> (r: Option<usize>)
    ensures
        match r {
            Some(i) => context_names(*ctx).index_of_first(name@) == Some(i as int),
            None => context_names(*ctx).index_of_first(name@) is None,
        },
{
    let ghost names = context_names(*ctx);
    proof {
        names.index_of_first_ensures(name@);
    }
    let n = context_len(ctx);
    let mut i: usize = 0;
    while i < n
        invariant
            n == names.len(),
            names == context_names(*ctx),
            i <= n,
            forall|j: int| 0 <= j < i ==> names[j] != name@,
            match names.index_of_first(name@) {
                Some(index) => {
                    &&& names.contains(name@)
                    &&& 0 <= index < names.len()
                    &&& names[index] == name@
                    &&& forall|j: int| 0 <= j < index < names.len() ==> names[j] != name@
                },
                None => { !names.contains(name@) },
            },
        decreases n - i,
    {
        let s = context_at(ctx, i);
        if *s == *name {
            return Some(i);
        }
        i = i + 1;
    }
    None
}

} // verus!
