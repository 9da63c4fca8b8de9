//! Typing contexts: persistent sequences of name/type bindings.
use std::rc::Rc;
use vstd::prelude::*;

use crate::types::{Type, well_formed};

verus! {

/// A typing context. An extension shares its parent, so one context can be
/// the base of several independent extensions.
#[derive(Debug)]
pub enum Context {
    Empty,
    /// The parent context extended by one binding of a name to a type.
    Extend(Rc<Context>, String, Type),
}

/// The bindings of a context, outermost first.
pub open spec fn bindings(g: Context) -> Seq<(Seq<char>, Type)>
    decreases g,
{
    match g {
        Context::Empty => Seq::empty(),
        Context::Extend(rest, n, t) => bindings(*rest).push((n@, t)),
    }
}

impl View for Context {
    type V = Seq<(Seq<char>, Type)>;

    open spec fn view(&self) -> Seq<(Seq<char>, Type)> {
        bindings(*self)
    }
}

/// The name is bound somewhere in the bindings.
pub open spec fn bound(bs: Seq<(Seq<char>, Type)>, n: Seq<char>) -> bool {
    exists|i: int| 0 <= i < bs.len() && #[trigger] bs[i].0 == n
}

/// A valid context binds only well-formed types and binds no name twice.
pub open spec fn valid_bindings(bs: Seq<(Seq<char>, Type)>) -> bool {
    &&& forall|i: int| 0 <= i < bs.len() ==> well_formed(#[trigger] bs[i].1)
    &&& forall|i: int, j: int| 0 <= i < j < bs.len() ==> #[trigger] bs[i].0 != #[trigger] bs[j].0
}

/// The type of the innermost binding of a name, if it is bound.
pub open spec fn lookup(bs: Seq<(Seq<char>, Type)>, n: Seq<char>) -> Option<Type>
    decreases bs.len(),
{
    if bs.len() == 0 {
        None
    } else if bs.last().0 == n {
        Some(bs.last().1)
    } else {
        lookup(bs.drop_last(), n)
    }
}

proof fn lemma_bound_push(bs: Seq<(Seq<char>, Type)>, b: (Seq<char>, Type), n: Seq<char>)
    ensures
        bound(bs.push(b), n) == (bound(bs, n) || b.0 == n),
{
    let s = bs.push(b);
    if bound(bs, n) {
        let i = choose|i: int| 0 <= i < bs.len() && #[trigger] bs[i].0 == n;
        assert(s[i].0 == n);
    }
    if b.0 == n {
        assert(s[bs.len() as int].0 == n);
    }
    if bound(s, n) {
        let i = choose|i: int| 0 <= i < s.len() && #[trigger] s[i].0 == n;
        if i < bs.len() {
            assert(bs[i].0 == n);
        }
    }
}

proof fn lemma_valid_push(bs: Seq<(Seq<char>, Type)>, b: (Seq<char>, Type))
    ensures
        valid_bindings(bs.push(b)) == (valid_bindings(bs) && well_formed(b.1) && !bound(bs, b.0)),
{
    let s = bs.push(b);
    let k = bs.len() as int;
    if valid_bindings(s) {
        assert(well_formed(s[k].1));
        assert forall|i: int| 0 <= i < bs.len() implies well_formed(#[trigger] bs[i].1) by {
            assert(well_formed(s[i].1));
        }
        assert forall|i: int, j: int| 0 <= i < j < bs.len() implies #[trigger] bs[i].0
            != #[trigger] bs[j].0 by {
            assert(s[i].0 != s[j].0);
        }
        if bound(bs, b.0) {
            let i = choose|i: int| 0 <= i < bs.len() && #[trigger] bs[i].0 == b.0;
            assert(s[i].0 != s[k].0);
        }
    }
    if valid_bindings(bs) && well_formed(b.1) && !bound(bs, b.0) {
        assert forall|i: int| 0 <= i < s.len() implies well_formed(#[trigger] s[i].1) by {
            if i < k {
                assert(well_formed(bs[i].1));
            }
        }
        assert forall|i: int, j: int| 0 <= i < j < s.len() implies #[trigger] s[i].0
            != #[trigger] s[j].0 by {
            if j < k {
                assert(bs[i].0 != bs[j].0);
            } else {
                assert(bs[i].0 != b.0);
            }
        }
    }
}

/// A context that binds one name twice is invalid, whatever the two types.
pub proof fn lemma_rebinding_rejected(bs: Seq<(Seq<char>, Type)>, n: Seq<char>, t1: Type, t2: Type)
    ensures
        !valid_bindings(bs.push((n, t1)).push((n, t2))),
{
    lemma_valid_push(bs.push((n, t1)), (n, t2));
    lemma_bound_push(bs, (n, t1), n);
}

/// In a valid context the innermost binding of a name is its only binding, so
/// lookup names a type exactly when the context holds that binding.
pub proof fn lemma_lookup_innermost_only(bs: Seq<(Seq<char>, Type)>, n: Seq<char>, t: Type)
    requires
        valid_bindings(bs),
    ensures
        (lookup(bs, n) == Some(t)) == bs.contains((n, t)),
    decreases bs.len(),
{
    if bs.len() > 0 {
        let rest = bs.drop_last();
        let b = bs.last();
        assert(rest.push(b) == bs);
        lemma_valid_push(rest, b);
        lemma_lookup_innermost_only(rest, n, t);
        if bs.contains((n, t)) {
            let i = choose|i: int| 0 <= i < bs.len() && bs[i] == (n, t);
            if i < rest.len() {
                assert(rest[i] == (n, t));
                assert(rest.contains((n, t)));
                if b.0 == n {
                    assert(rest[i].0 == b.0);
                    assert(bound(rest, b.0));
                }
            }
        }
        if rest.contains((n, t)) {
            let i = choose|i: int| 0 <= i < rest.len() && rest[i] == (n, t);
            assert(bs[i] == (n, t));
        }
        if b == (n, t) {
            assert(bs[bs.len() - 1] == (n, t));
        }
    }
}

/// Extending a context leaves everything about its parent as it was: the
/// parent's bindings are kept in order, names other than the new one are
/// bound and typed as before, and a valid extension has a valid parent.
pub proof fn lemma_extension_keeps_parent(
    bs: Seq<(Seq<char>, Type)>,
    n: Seq<char>,
    t: Type,
    m: Seq<char>,
)
    ensures
        bs.push((n, t)).drop_last() == bs,
        m != n ==> lookup(bs.push((n, t)), m) == lookup(bs, m),
        m != n ==> bound(bs.push((n, t)), m) == bound(bs, m),
        lookup(bs.push((n, t)), n) == Some(t),
        valid_bindings(bs.push((n, t))) ==> valid_bindings(bs),
{
    assert(bs.push((n, t)).drop_last() == bs);
    lemma_bound_push(bs, (n, t), m);
    lemma_valid_push(bs, (n, t));
}

impl Context {
    /// A new context that extends this one by binding `name` to `t`; this
    /// context is shared, not changed.
    pub fn extend(self: &Rc<Context>, name: String, t: Type) -> (r: Context)
        ensures
            r@ == (**self)@.push((name@, t)),
    {
        Context::Extend(Rc::clone(self), name, t)
    }

    /// A copy of this context that shares its parent.
    pub fn copy(&self) -> (r: Context)
        ensures
            r == *self,
    {
        match self {
            Context::Empty => Context::Empty,
            Context::Extend(rest, n, t) => Context::Extend(Rc::clone(rest), n.clone(), t.copy()),
        }
    }
}

/// Decides whether `name` is absent from the context.
pub fn not_in(name: &String, g: &Context) -> (r: bool)
    ensures
        r == !bound(g@, name@),
    decreases g,
{
    match g {
        Context::Empty => true,
        Context::Extend(rest, n, t) => {
            proof {
                lemma_bound_push((**rest)@, (n@, *t), name@);
            }
            if *n == *name {
                false
            } else {
                not_in(name, rest)
            }
        },
    }
}

/// Decides whether the context is valid: each binding names a well-formed
/// type and a name not bound before it.
pub fn judgment_ctx(g: &Context) -> (r: bool)
    ensures
        r == valid_bindings(g@),
    decreases g,
{
    match g {
        Context::Empty => true,
        Context::Extend(rest, n, t) => {
            proof {
                lemma_valid_push((**rest)@, (n@, *t));
            }
            judgment_ctx(rest) && crate::types::judgment(t) && not_in(n, rest)
        },
    }
}

/// Decides whether the innermost binding of `v` in the context gives it the
/// type `a`.
pub fn var_has_type(v: &String, a: &Type, g: &Context) -> (r: bool)
    ensures
        r == (lookup(g@, v@) == Some(*a)),
    decreases g,
{
    match g {
        Context::Empty => false,
        Context::Extend(rest, n, t) => {
            assert((**rest)@.push((n@, *t)).drop_last() == (**rest)@);
            if *n == *v {
                crate::types::type_equality(a, t)
            } else {
                var_has_type(v, a, rest)
            }
        },
    }
}

} // verus!
