use std::rc::Rc;

use typecheck::{
    judgment, judgment_check, judgment_ctx, not_in, type_equality, var_has_type, Context, Term,
    Type,
};

fn product(l: Type, r: Type) -> Type {
    Type::Product(Box::new(l), Box::new(r))
}

fn fun(i: Type, o: Type) -> Type {
    Type::Fun(Box::new(i), Box::new(o))
}

fn var(n: &str) -> Term {
    Term::Var(n.to_string())
}

fn lam(n: &str, body: Term) -> Term {
    Term::Lam(n.to_string(), Box::new(body))
}

fn app(f: Term, a: Term, t: Type) -> Term {
    Term::App(Box::new(f), Box::new(a), t)
}

fn pair(a: Term, b: Term) -> Term {
    Term::Pair(Box::new(a), Box::new(b))
}

fn split(p: Term, a: &str, ta: Type, b: &str, tb: Type, body: Term) -> Term {
    Term::Split(Box::new(p), a.to_string(), ta, b.to_string(), tb, Box::new(body))
}

fn extend(g: Context, n: &str, t: Type) -> Context {
    Rc::new(g).extend(n.to_string(), t)
}

#[test]
fn valid_judgement() {
    let foo = Type::Foo;
    assert!(judgment(&foo));

    let bar = Type::Bar;
    assert!(judgment(&bar));

    let baz = Type::Baz;
    assert!(judgment(&baz));

    let sum = Type::Product(Box::new(Type::Foo), Box::new(Type::Bar));
    assert!(judgment(&sum));

    let fun = Type::Fun(Box::new(baz), Box::new(foo));
    assert!(judgment(&fun));
}

#[test]
fn type_equality_is_reflexive() {
    let types = vec![
        Type::Foo,
        Type::Baz,
        product(Type::Foo, fun(Type::Bar, Type::Baz)),
        fun(product(Type::Foo, Type::Foo), Type::Bar),
    ];
    for t in &types {
        assert!(type_equality(t, t));
        assert!(type_equality(t, &t.copy()));
    }
}

#[test]
fn type_equality_is_structural() {
    assert!(type_equality(&product(Type::Foo, Type::Bar), &product(Type::Foo, Type::Bar)));
    assert!(!type_equality(&product(Type::Foo, Type::Bar), &product(Type::Bar, Type::Foo)));
    assert!(!type_equality(&product(Type::Foo, Type::Bar), &product(Type::Foo, Type::Baz)));
    assert!(type_equality(&fun(Type::Foo, Type::Bar), &fun(Type::Foo, Type::Bar)));
    assert!(!type_equality(&fun(Type::Foo, Type::Bar), &fun(Type::Baz, Type::Bar)));
    assert!(!type_equality(&product(Type::Foo, Type::Bar), &fun(Type::Foo, Type::Bar)));
    assert!(!type_equality(&fun(Type::Foo, Type::Bar), &product(Type::Foo, Type::Bar)));
    assert!(!type_equality(&Type::Foo, &fun(Type::Foo, Type::Foo)));
    assert!(!type_equality(&Type::Foo, &Type::Bar));
}

#[test]
fn duplicate_name_makes_context_invalid() {
    let g = extend(extend(Context::Empty, "x", Type::Foo), "x", Type::Bar);
    assert!(!judgment_ctx(&g));
    let same = extend(extend(Context::Empty, "x", Type::Foo), "x", Type::Foo);
    assert!(!judgment_ctx(&same));
}

#[test]
fn distinct_names_make_context_valid() {
    assert!(judgment_ctx(&Context::Empty));
    let g = extend(extend(Context::Empty, "x", Type::Foo), "y", fun(Type::Foo, Type::Bar));
    assert!(judgment_ctx(&g));
}

#[test]
fn name_presence() {
    let g = extend(extend(Context::Empty, "x", Type::Foo), "y", Type::Bar);
    assert!(!not_in(&"x".to_string(), &g));
    assert!(!not_in(&"y".to_string(), &g));
    assert!(not_in(&"z".to_string(), &g));
    assert!(not_in(&"x".to_string(), &Context::Empty));
}

#[test]
fn lookup_uses_innermost_binding() {
    let g = extend(extend(Context::Empty, "x", Type::Foo), "y", Type::Bar);
    assert!(var_has_type(&"x".to_string(), &Type::Foo, &g));
    assert!(!var_has_type(&"x".to_string(), &Type::Bar, &g));
    assert!(var_has_type(&"y".to_string(), &Type::Bar, &g));
    assert!(!var_has_type(&"z".to_string(), &Type::Foo, &g));
    assert!(!var_has_type(&"x".to_string(), &Type::Foo, &Context::Empty));

    // an inner binding decides, even where an outer one would match
    let shadowed = extend(extend(Context::Empty, "x", Type::Foo), "x", Type::Bar);
    assert!(var_has_type(&"x".to_string(), &Type::Bar, &shadowed));
    assert!(!var_has_type(&"x".to_string(), &Type::Foo, &shadowed));
}

#[test]
fn extension_leaves_parent_unchanged() {
    let base = Rc::new(extend(Context::Empty, "x", Type::Foo));
    let left = base.extend("y".to_string(), Type::Bar);
    let right = base.extend("y".to_string(), Type::Baz);
    assert!(var_has_type(&"y".to_string(), &Type::Bar, &left));
    assert!(var_has_type(&"y".to_string(), &Type::Baz, &right));
    assert!(not_in(&"y".to_string(), &base));
    assert!(judgment_ctx(&base));
    assert!(var_has_type(&"x".to_string(), &Type::Foo, &base));
    assert!(!var_has_type(&"y".to_string(), &Type::Bar, &base));
}

#[test]
fn identity() {
    let term = lam("x", var("x"));
    assert!(judgment_check(&Context::Empty, &term, &fun(Type::Foo, Type::Foo)));
    assert!(!judgment_check(&Context::Empty, &term, &fun(Type::Foo, Type::Bar)));
}

#[test]
fn first_projection() {
    let term = lam("p", split(var("p"), "x", Type::Foo, "y", Type::Bar, var("x")));
    let t = fun(product(Type::Foo, Type::Bar), Type::Foo);
    assert!(judgment_check(&Context::Empty, &term, &t));
}

#[test]
fn application_of_unbound_names() {
    let term = app(var("f"), var("x"), Type::Foo);
    assert!(!judgment_check(&Context::Empty, &term, &Type::Bar));
}

#[test]
fn pair_against_function_type() {
    let term = pair(var("a"), var("b"));
    assert!(!judgment_check(&Context::Empty, &term, &fun(Type::Foo, Type::Foo)));
}

#[test]
fn lambda_against_base_type() {
    assert!(!judgment_check(&Context::Empty, &lam("x", var("x")), &Type::Foo));
}

#[test]
fn currying() {
    let term = lam(
        "f",
        lam(
            "x",
            lam("y", app(var("f"), pair(var("x"), var("y")), product(Type::Foo, Type::Bar))),
        ),
    );
    let t = fun(
        fun(product(Type::Foo, Type::Bar), Type::Baz),
        fun(Type::Foo, fun(Type::Bar, Type::Baz)),
    );
    assert!(judgment_check(&Context::Empty, &term, &t));
}

#[test]
fn uncurrying() {
    let term = lam(
        "f",
        lam(
            "p",
            split(
                var("p"),
                "x",
                Type::Foo,
                "y",
                Type::Bar,
                app(app(var("f"), var("x"), Type::Foo), var("y"), Type::Bar),
            ),
        ),
    );
    let t = fun(
        fun(Type::Foo, fun(Type::Bar, Type::Baz)),
        fun(product(Type::Foo, Type::Bar), Type::Baz),
    );
    assert!(judgment_check(&Context::Empty, &term, &t));
}

#[test]
fn constant_apply_and_reverse_apply() {
    let konst = lam("x", lam("y", var("x")));
    let t = fun(Type::Foo, fun(Type::Bar, Type::Foo));
    assert!(judgment_check(&Context::Empty, &konst, &t));

    let apply = lam("f", lam("x", app(var("f"), var("x"), Type::Foo)));
    let t = fun(fun(Type::Foo, Type::Bar), fun(Type::Foo, Type::Bar));
    assert!(judgment_check(&Context::Empty, &apply, &t));

    let reverse = lam("x", lam("f", app(var("f"), var("x"), Type::Foo)));
    let t = fun(Type::Foo, fun(fun(Type::Foo, Type::Bar), Type::Bar));
    assert!(judgment_check(&Context::Empty, &reverse, &t));
}

#[test]
fn variables_checked_in_given_context() {
    let g = extend(extend(Context::Empty, "a", Type::Foo), "b", Type::Bar);
    let term = pair(var("a"), var("b"));
    assert!(judgment_check(&g, &term, &product(Type::Foo, Type::Bar)));
    assert!(!judgment_check(&g, &term, &product(Type::Bar, Type::Foo)));
}
