//! Terms of the calculus and the typing judgment that checks them.
use std::rc::Rc;
use vstd::prelude::*;

use crate::context::{Context, lookup, var_has_type};
use crate::types::Type;

verus! {

/// A term of the calculus. Application and pair elimination carry the types
/// that cannot be read off the target type.
#[derive(Debug)]
pub enum Term {
    /// Pair construction.
    Pair(Box<Term>, Box<Term>),
    /// Pair elimination: binds the two names, with their types, in the body.
    Split(Box<Term>, String, Type, String, Type, Box<Term>),
    /// Abstraction over one parameter; its type comes from the target.
    Lam(String, Box<Term>),
    /// Application of a function to an argument of the given type.
    App(Box<Term>, Box<Term>, Type),
    /// A variable.
    Var(String),
}

/// The typing judgment: under the bindings `bs`, the term has type `t`.
pub open spec fn derives(bs: Seq<(Seq<char>, Type)>, term: Term, t: Type) -> bool
    decreases term,
{
    match term {
        Term::Pair(fst, snd) => match t {
            Type::Product(l, r) => derives(bs, *fst, *l) && derives(bs, *snd, *r),
            _ => false,
        },
        Term::Split(pair, na, ta, nb, tb, body) => derives(
            bs,
            *pair,
            Type::Product(Box::new(ta), Box::new(tb)),
        ) && derives(bs.push((na@, ta)).push((nb@, tb)), *body, t),
        Term::Lam(n, body) => match t {
            Type::Fun(i, o) => derives(bs.push((n@, *i)), *body, *o),
            _ => false,
        },
        Term::App(fun, arg, ta) => derives(bs, *fun, Type::Fun(Box::new(ta), Box::new(t)))
            && derives(bs, *arg, ta),
        Term::Var(n) => lookup(bs, n@) == Some(t),
    }
}

/// Decides whether `term` has type `t` in the context `g`.
pub fn judgment_check(g: &Context, term: &Term, t: &Type) -> (r: bool)
    ensures
        r == derives(g@, *term, *t),
    decreases term,
{
    match (term, t) {
        (Term::Pair(fst, snd), Type::Product(l, r)) => judgment_check(g, fst, l) && judgment_check(
            g,
            snd,
            r,
        ),
        (Term::Split(pair, na, ta, nb, tb, body), _) => {
            let pair_type = Type::Product(Box::new(ta.copy()), Box::new(tb.copy()));
            if !judgment_check(g, pair, &pair_type) {
                return false;
            }
            let with_a = Rc::new(Rc::new(g.copy()).extend(na.clone(), ta.copy()));
            let with_b = with_a.extend(nb.clone(), tb.copy());
            judgment_check(&with_b, body, t)
        },
        (Term::Lam(n, body), Type::Fun(i, o)) => {
            let inner = Rc::new(g.copy()).extend(n.clone(), i.copy());
            judgment_check(&inner, body, o)
        },
        (Term::App(fun, arg, ta), _) => {
            let fun_type = Type::Fun(Box::new(ta.copy()), Box::new(t.copy()));
            judgment_check(g, fun, &fun_type) && judgment_check(g, arg, ta)
        },
        (Term::Var(n), _) => var_has_type(n, t, g),
        _ => false,
    }
}

} // verus!
