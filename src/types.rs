//! Type expressions: base types, products and functions.
use vstd::prelude::*;

verus! {

/// A type expression of the calculus.
#[derive(Debug)]
pub enum Type {
    Foo,
    Bar,
    Baz,
    /// The type of pairs: left * right.
    Product(Box<Type>, Box<Type>),
    /// The type of abstractions: input -> output.
    Fun(Box<Type>, Box<Type>),
}

/// A type is well formed when every leaf is a base type and every inner node
/// has two well-formed children.
pub open spec fn well_formed(t: Type) -> bool
    decreases t,
{
    match t {
        Type::Foo | Type::Bar | Type::Baz => true,
        Type::Product(l, r) => well_formed(*l) && well_formed(*r),
        Type::Fun(i, o) => well_formed(*i) && well_formed(*o),
    }
}

/// Structural equality of types: same base type, or same connective with
/// pairwise equal children.
pub open spec fn type_eq(a: Type, b: Type) -> bool
    decreases a,
{
    match (a, b) {
        (Type::Foo, Type::Foo) => true,
        (Type::Bar, Type::Bar) => true,
        (Type::Baz, Type::Baz) => true,
        (Type::Product(al, ar), Type::Product(bl, br)) => type_eq(*al, *bl) && type_eq(*ar, *br),
        (Type::Fun(ai, ao), Type::Fun(bi, bo)) => type_eq(*ai, *bi) && type_eq(*ao, *bo),
        _ => false,
    }
}

/// Every type that can be built is well formed: a missing child cannot be
/// represented.
pub proof fn lemma_well_formed(t: Type)
    ensures
        well_formed(t),
    decreases t,
{
    match t {
        Type::Product(l, r) => {
            lemma_well_formed(*l);
            lemma_well_formed(*r);
        },
        Type::Fun(i, o) => {
            lemma_well_formed(*i);
            lemma_well_formed(*o);
        },
        _ => {},
    }
}

/// Structural equality of types is exactly equality of the trees.
pub proof fn lemma_type_eq_is_equality(a: Type, b: Type)
    ensures
        type_eq(a, b) == (a == b),
    decreases a,
{
    match (a, b) {
        (Type::Product(al, ar), Type::Product(bl, br)) => {
            lemma_type_eq_is_equality(*al, *bl);
            lemma_type_eq_is_equality(*ar, *br);
        },
        (Type::Fun(ai, ao), Type::Fun(bi, bo)) => {
            lemma_type_eq_is_equality(*ai, *bi);
            lemma_type_eq_is_equality(*ao, *bo);
        },
        _ => {},
    }
}

/// Reflexivity: every well-formed type is equal to itself.
pub proof fn lemma_type_eq_reflexive(t: Type)
    requires
        well_formed(t),
    ensures
        type_eq(t, t),
{
    lemma_type_eq_is_equality(t, t);
}

/// Congruence: two products (or two function types) are equal exactly when
/// their children are pairwise equal, and types built with different
/// connectives are never equal.
pub proof fn lemma_type_eq_congruence(a: Type, b: Type, c: Type, d: Type)
    ensures
        type_eq(
            Type::Product(Box::new(a), Box::new(b)),
            Type::Product(Box::new(c), Box::new(d)),
        ) == (type_eq(a, c) && type_eq(b, d)),
        type_eq(Type::Fun(Box::new(a), Box::new(b)), Type::Fun(Box::new(c), Box::new(d))) == (
        type_eq(a, c) && type_eq(b, d)),
        !type_eq(Type::Product(Box::new(a), Box::new(b)), Type::Fun(Box::new(c), Box::new(d))),
        !type_eq(Type::Fun(Box::new(a), Box::new(b)), Type::Product(Box::new(c), Box::new(d))),
        !type_eq(Type::Product(Box::new(a), Box::new(b)), Type::Foo),
        !type_eq(Type::Fun(Box::new(a), Box::new(b)), Type::Foo),
        !type_eq(Type::Foo, Type::Product(Box::new(c), Box::new(d))),
        !type_eq(Type::Foo, Type::Fun(Box::new(c), Box::new(d))),
{
}

impl Type {
    /// A copy of this type.
    pub fn copy(&self) -> (r: Type)
        ensures
            r == *self,
        decreases self,
    {
        match self {
            Type::Foo => Type::Foo,
            Type::Bar => Type::Bar,
            Type::Baz => Type::Baz,
            Type::Product(l, r) => Type::Product(Box::new(l.copy()), Box::new(r.copy())),
            Type::Fun(i, o) => Type::Fun(Box::new(i.copy()), Box::new(o.copy())),
        }
    }
}

/// Decides whether a type is well formed.
pub fn judgment(t: &Type) -> (r: bool)
    ensures
        r == well_formed(*t),
        r,
    decreases t,
{
    proof {
        lemma_well_formed(*t);
    }
    match t {
        Type::Foo | Type::Bar | Type::Baz => true,
        Type::Product(l, r) => judgment(l) && judgment(r),
        Type::Fun(i, o) => judgment(i) && judgment(o),
    }
}

/// Decides whether two types are structurally equal.
pub fn type_equality(a: &Type, b: &Type) -> (r: bool)
    ensures
        r == type_eq(*a, *b),
        r == (*a == *b),
    decreases a,
{
    proof {
        lemma_type_eq_is_equality(*a, *b);
    }
    match (a, b) {
        (Type::Foo, Type::Foo) | (Type::Bar, Type::Bar) | (Type::Baz, Type::Baz) => true,
        (Type::Product(al, ar), Type::Product(bl, br)) => type_equality(al, bl) && type_equality(
            ar,
            br,
        ),
        (Type::Fun(ai, ao), Type::Fun(bi, bo)) => type_equality(ai, bi) && type_equality(ao, bo),
        _ => false,
    }
}

} // verus!
