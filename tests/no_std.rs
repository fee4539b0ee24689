use propane::{Body, GenIter, Step};

fn foo() -> GenIter<Body<i32>> {
    let mut steps = Vec::new();
    for n in 0..10 {
        steps.push(Step::Emit(n));
    }
    GenIter::new(Body::new(steps))
}

#[test]
fn no_std_test_foo() {
    let mut foo = foo();
    for n in 0..10 {
        assert_eq!(foo.next(), Some(n));
    }
    assert!(foo.next().is_none());
}

fn bar() -> Result<(), ()> {
    Err(())
}

fn result() -> GenIter<Body<Result<i32, ()>>> {
    let mut steps = Vec::new();
    for n in 0..5 {
        steps.push(Step::Emit(Ok(n)));
    }
    steps.push(Step::Propagate(bar().map_err(Err)));
    steps.push(Step::Emit(Ok(10)));
    GenIter::new(Body::new(steps))
}

#[test]
fn no_std_test_result() {
    let mut result = result();
    for n in 0..5 {
        assert_eq!(result.next(), Some(Ok(n)));
    }

    assert_eq!(result.next(), Some(Err(())));
    assert!(result.next().is_none())
}

struct Foo(Option<i32>);

impl Foo {
    /// Runs the body `while let Some(n) = self.0.take() { yield n; }`.
    fn method(&mut self) -> GenIter<Body<i32>> {
        let mut steps = Vec::new();
        while let Some(n) = self.0.take() {
            steps.push(Step::Emit(n));
        }
        GenIter::new(Body::new(steps))
    }
}

#[test]
fn test_foo_method() {
    let mut foo = Foo(Some(0));
    let mut iter = foo.method();
    assert_eq!(iter.next(), Some(0));
    assert!(iter.next().is_none());
}
