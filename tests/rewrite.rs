use propane::syntax::{Args, Attr, Expr, ItemFn, Lifetime, Param, Signature, TransformError, Type};
use propane::rewrite::TransformContext;
use propane::{async_gen, async_gen_move, gen, gen_move, generator, Body, GenIter, Step};

fn atom(s: &str) -> Box<Expr> {
    Box::new(Expr::Atom(s.to_string()))
}

fn then(a: Expr, b: Expr) -> Expr {
    Expr::Then(Box::new(a), Box::new(b))
}

fn path(s: &str) -> Type {
    Type::Path(s.to_string())
}

fn item(name: &str, is_async: bool, lifetimes: Vec<Lifetime>, inputs: Vec<Param>, output: Option<Type>, body: Expr) -> ItemFn {
    ItemFn {
        attrs: vec![],
        sig: Signature { name: name.to_string(), is_async, lifetimes, inputs, output },
        body: Box::new(body),
        is_method: false,
    }
}

fn bar_item() -> ItemFn {
    item("bar", false, vec![], vec![], Some(path("Result<(), ()>")), Expr::Call(atom("Err"), Box::new(Expr::Unit)))
}

/// `for n in 0..5 { yield Ok(n); } bar()?; yield Ok(10);` after a nested `fn bar`.
fn result_body() -> Expr {
    then(
        Expr::Item(Box::new(bar_item())),
        then(
            Expr::For("n".to_string(), atom("0..5"), Box::new(Expr::Yield(Some(Box::new(Expr::Call(atom("Ok"), atom("n"))))))),
            then(
                Expr::Try(Box::new(Expr::Call(atom("bar"), Box::new(Expr::Unit)))),
                Expr::Yield(Some(Box::new(Expr::Call(atom("Ok"), atom("10"))))),
            ),
        ),
    )
}

fn result_rewritten() -> Expr {
    then(
        Expr::Item(Box::new(bar_item())),
        then(
            Expr::For("n".to_string(), atom("0..5"), Box::new(Expr::Yield(Some(Box::new(Expr::Call(atom("Ok"), atom("n"))))))),
            then(
                Expr::GenTry(Box::new(Expr::Call(atom("bar"), Box::new(Expr::Unit)))),
                Expr::Yield(Some(Box::new(Expr::Call(atom("Ok"), atom("10"))))),
            ),
        ),
    )
}

#[test]
fn generator_rewrites_early_exit_and_return_type() {
    let f = generator(None, item("result", false, vec![], vec![], Some(path("Result<i32, ()>")), result_body()), false).unwrap();
    assert_eq!(f.sig.name, "result");
    assert!(!f.sig.is_async);
    assert_eq!(f.sig.output, Some(Type::Sequence { stream: false, item: Box::new(path("Result<i32, ()>")), bounds: vec![] }));
    assert_eq!(*f.body, Expr::Adapter { stream: false, by_move: true, body: Box::new(result_rewritten()) });
    assert!(f.attrs.is_empty());
}

#[test]
fn generator_names_elided_receiver_borrow() {
    let self_param = Param {
        name: "self".to_string(),
        ty: Type::Ref { lifetime: None, mutable: true, target: "Self".to_string() },
    };
    let mut input = item("method", false, vec![], vec![self_param], Some(path("i32")), Expr::Unit);
    input.is_method = true;
    let f = generator(None, input, false).unwrap();
    assert!(f.is_method);
    assert_eq!(f.sig.lifetimes, vec![Lifetime::Fresh(0)]);
    assert_eq!(
        f.sig.inputs[0].ty,
        Type::Ref { lifetime: Some(Lifetime::Fresh(0)), mutable: true, target: "Self".to_string() }
    );
    assert_eq!(
        f.sig.output,
        Some(Type::Sequence { stream: false, item: Box::new(path("i32")), bounds: vec![Lifetime::Fresh(0)] })
    );
}

#[test]
fn generator_keeps_named_lifetimes_first() {
    let a = Lifetime::Named("'a".to_string());
    let inputs = vec![
        Param { name: "x".to_string(), ty: Type::Ref { lifetime: Some(Lifetime::Named("'a".to_string())), mutable: false, target: "str".to_string() } },
        Param { name: "n".to_string(), ty: path("usize") },
        Param { name: "y".to_string(), ty: Type::Ref { lifetime: None, mutable: false, target: "str".to_string() } },
    ];
    let f = generator(None, item("pair", false, vec![a], inputs, None, Expr::Unit), false).unwrap();
    let expected = vec![Lifetime::Named("'a".to_string()), Lifetime::Fresh(2)];
    assert_eq!(f.sig.lifetimes, expected);
    assert_eq!(f.sig.inputs[1].ty, path("usize"));
    assert_eq!(f.sig.inputs[2].ty, Type::Ref { lifetime: Some(Lifetime::Fresh(2)), mutable: false, target: "str".to_string() });
    assert_eq!(f.sig.output, Some(Type::Sequence { stream: false, item: Box::new(Type::Unit), bounds: expected }));
}

#[test]
fn generator_on_async_fn_makes_a_stream() {
    let body = then(Expr::Await(atom("fut")), Expr::Yield(Some(atom("0i32"))));
    let inputs = vec![Param { name: "fut".to_string(), ty: path("F") }];
    let f = generator(None, item("foo", true, vec![], inputs, Some(path("i32")), body), false).unwrap();
    assert!(!f.sig.is_async);
    assert_eq!(f.sig.output, Some(Type::Sequence { stream: true, item: Box::new(path("i32")), bounds: vec![] }));
    let rewritten = then(Expr::AsyncGenAwait(atom("fut")), Expr::AsyncGenYield(atom("0i32")));
    assert_eq!(*f.body, Expr::Adapter { stream: true, by_move: true, body: Box::new(rewritten) });
}

#[test]
fn await_in_synchronous_generator_is_refused() {
    let body = then(Expr::Yield(Some(atom("1"))), Expr::Await(atom("fut")));
    let r = generator(None, item("bad", false, vec![], vec![], None, body), false);
    assert_eq!(r, Err(TransformError::AwaitOutsideAsync));
    assert_eq!(gen(Expr::Call(atom("g"), Box::new(Expr::Await(atom("f"))))), Err(TransformError::AwaitOutsideAsync));
}

#[test]
fn unknown_option_is_refused() {
    let r = generator(Some(Args::Unrecognized("retries".to_string())), item("f", false, vec![], vec![], None, Expr::Unit), true);
    assert_eq!(r, Err(TransformError::UnknownOption));
}

#[test]
fn throws_needs_the_integration() {
    let r = generator(Some(Args::Throws("io::Error".to_string())), item("f", false, vec![], vec![], None, Expr::Unit), false);
    assert_eq!(r, Err(TransformError::ThrowsUnavailable));
}

#[test]
fn throws_attaches_the_delegated_directive() {
    let mut input = item("f", false, vec![], vec![], None, Expr::Unit);
    input.attrs.push(Attr::Other("inline".to_string()));
    let f = generator(Some(Args::Throws("io::Error".to_string())), input, true).unwrap();
    assert_eq!(f.attrs, vec![Attr::Other("inline".to_string()), Attr::Throws("io::Error".to_string())]);
}

#[test]
fn nested_functions_and_closures_are_left_alone() {
    let nested = item("inner", true, vec![], vec![], None, Expr::Await(atom("x")));
    let body = then(
        Expr::Item(Box::new(nested)),
        then(Expr::Closure(Box::new(Expr::Try(atom("y")))), Expr::Try(atom("z"))),
    );
    let r = gen_move(body).unwrap();
    let nested = item("inner", true, vec![], vec![], None, Expr::Await(atom("x")));
    let expected = then(
        Expr::Item(Box::new(nested)),
        then(Expr::Closure(Box::new(Expr::Try(atom("y")))), Expr::GenTry(atom("z"))),
    );
    assert_eq!(r, Expr::Adapter { stream: false, by_move: true, body: Box::new(expected) });
    assert_eq!(
        gen(Expr::Closure(Box::new(Expr::Await(atom("f"))))),
        Ok(Expr::Adapter { stream: false, by_move: false, body: Box::new(Expr::Closure(Box::new(Expr::Await(atom("f"))))) })
    );
}

#[test]
fn outer_function_records_its_mode_in_the_context() {
    let mut cx = TransformContext::new(true, false, true, None);
    let f = item("foo", true, vec![], vec![], Some(path("i32")), Expr::Yield(None));
    let out = cx.fold_item_fn(f).unwrap();
    assert!(!out.sig.is_async);
    assert!(cx.is_async);
    assert!(cx.is_move);
    assert!(!cx.outer_fn);
    assert!(cx.lifetimes.is_empty());
}

#[test]
fn async_blocks_tag_emitted_values_ready() {
    let body = then(Expr::Yield(None), Expr::Try(atom("r")));
    let expected = then(Expr::AsyncGenYield(Box::new(Expr::Unit)), Expr::AsyncGenTry(atom("r")));
    let borrowed = async_gen(body).unwrap();
    assert_eq!(borrowed, Expr::Adapter { stream: true, by_move: false, body: Box::new(expected) });
    let body = then(Expr::Yield(None), Expr::Try(atom("r")));
    let expected = then(Expr::AsyncGenYield(Box::new(Expr::Unit)), Expr::AsyncGenTry(atom("r")));
    let owned = async_gen_move(body).unwrap();
    assert_eq!(owned, Expr::Adapter { stream: true, by_move: true, body: Box::new(expected) });
}

#[test]
fn anonymous_generator() {
    let block = Expr::For("x".to_string(), atom("0..10"), Box::new(Expr::Yield(Some(atom("x")))));
    let expected = Expr::For("x".to_string(), atom("0..10"), Box::new(Expr::Yield(Some(atom("x")))));
    assert_eq!(gen(block), Ok(Expr::Adapter { stream: false, by_move: false, body: Box::new(expected) }));

    let mut iter = GenIter::new(Body::new((0..10).map(Step::Emit).collect()));
    for x in 0..10 {
        assert_eq!(iter.next(), Some(x));
    }

    assert!(iter.next().is_none());
}

#[test]
fn option_parsing_recognizes_throws_only() {
    assert_eq!(Args::parse("throws".to_string(), "io::Error".to_string()), Args::Throws("io::Error".to_string()));
    assert_eq!(Args::parse("throw".to_string(), "x".to_string()), Args::Unrecognized("throw".to_string()));
}

#[test]
fn nested_context_leaves_functions_and_return_types_alone() {
    let mut cx = TransformContext::new(false, false, true, None);
    let f = item("inner", false, vec![], vec![], Some(path("i32")), Expr::Try(atom("x")));
    let kept = cx.fold_item_fn(f).unwrap();
    assert_eq!(kept, item("inner", false, vec![], vec![], Some(path("i32")), Expr::Try(atom("x"))));
    assert_eq!(cx.fold_return_type(Some(path("u8"))), Some(path("u8")));
}

#[test]
fn return_type_uses_up_recorded_lifetimes() {
    let mut cx = TransformContext::new(true, true, false, None);
    cx.lifetimes.push(Lifetime::Named("'a".to_string()));
    let t = cx.fold_return_type(None);
    assert_eq!(t, Some(Type::Sequence { stream: true, item: Box::new(Type::Unit), bounds: vec![Lifetime::Named("'a".to_string())] }));
    assert!(cx.lifetimes.is_empty());
}
