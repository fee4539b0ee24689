use vstd::prelude::*;
use crate::syntax::{Args, Attr, Expr, ItemFn, Lifetime, Param, Signature, TransformError, Type};

verus! {

/// The body rewriting rules: the three control constructs are replaced by the
/// runtime's protocol for the mode, nested function items and closures are
/// left as they are, and every other expression is rewritten in its parts. An `await` in a
/// synchronous body is refused.
pub open spec fn rewrite_expr(e: Expr, is_async: bool) -> Result<Expr, TransformError>
    decreases e,
{
    match e {
        Expr::Then(a, b) => match (rewrite_expr(*a, is_async), rewrite_expr(*b, is_async)) {
            (Ok(a2), Ok(b2)) => Ok(Expr::Then(Box::new(a2), Box::new(b2))),
            (Err(x), _) => Err(x),
            (Ok(_), Err(x)) => Err(x),
        },
        Expr::Call(a, b) => match (rewrite_expr(*a, is_async), rewrite_expr(*b, is_async)) {
            (Ok(a2), Ok(b2)) => Ok(Expr::Call(Box::new(a2), Box::new(b2))),
            (Err(x), _) => Err(x),
            (Ok(_), Err(x)) => Err(x),
        },
        Expr::For(p, a, b) => match (rewrite_expr(*a, is_async), rewrite_expr(*b, is_async)) {
            (Ok(a2), Ok(b2)) => Ok(Expr::For(p, Box::new(a2), Box::new(b2))),
            (Err(x), _) => Err(x),
            (Ok(_), Err(x)) => Err(x),
        },
        Expr::Try(a) => match rewrite_expr(*a, is_async) {
            Ok(a2) => if is_async {
                Ok(Expr::AsyncGenTry(Box::new(a2)))
            } else {
                Ok(Expr::GenTry(Box::new(a2)))
            },
            Err(x) => Err(x),
        },
        Expr::Yield(Some(a)) => match rewrite_expr(*a, is_async) {
            Ok(a2) => if is_async {
                Ok(Expr::AsyncGenYield(Box::new(a2)))
            } else {
                Ok(Expr::Yield(Some(Box::new(a2))))
            },
            Err(x) => Err(x),
        },
        Expr::Yield(None) => if is_async {
            Ok(Expr::AsyncGenYield(Box::new(Expr::Unit)))
        } else {
            Ok(Expr::Yield(None))
        },
        Expr::Await(a) => match rewrite_expr(*a, is_async) {
            Ok(a2) => if is_async {
                Ok(Expr::AsyncGenAwait(Box::new(a2)))
            } else {
                Err(TransformError::AwaitOutsideAsync)
            },
            Err(x) => Err(x),
        },
        _ => Ok(e),
    }
}

/// Whether a parameter borrows with an elided lifetime.
pub open spec fn is_elided(p: Param) -> bool {
    p.ty matches Type::Ref { lifetime: None, .. }
}

/// The parameter at position `i` with its elided lifetime, if any, named.
pub open spec fn unelide_param(p: Param, i: int) -> Param {
    match p.ty {
        Type::Ref { lifetime: None, mutable, target } => Param {
            name: p.name,
            ty: Type::Ref { lifetime: Some(Lifetime::Fresh(i as usize)), mutable, target },
        },
        _ => p,
    }
}

/// The parameter list with every elided lifetime named.
pub open spec fn unelide_params(ps: Seq<Param>) -> Seq<Param> {
    Seq::new(ps.len(), |j: int| unelide_param(ps[j], j))
}

/// The lifetimes introduced for the elided borrows of `ps`, in order.
pub open spec fn fresh_lifetimes(ps: Seq<Param>) -> Seq<Lifetime>
    decreases ps.len(),
{
    if ps.len() == 0 {
        Seq::empty()
    } else if is_elided(ps.last()) {
        fresh_lifetimes(ps.drop_last()).push(Lifetime::Fresh((ps.len() - 1) as usize))
    } else {
        fresh_lifetimes(ps.drop_last())
    }
}

/// Naming elided borrows is idempotent: a list with none comes back as it
/// was and introduces no name, and a list that has been through it has none.
pub proof fn lemma_unelide_idempotent(ps: Seq<Param>)
    ensures
        (forall|j: int| 0 <= j < ps.len() ==> !is_elided(#[trigger] ps[j])) ==> {
            &&& unelide_params(ps) == ps
            &&& fresh_lifetimes(ps) == Seq::<Lifetime>::empty()
        },
        forall|j: int| 0 <= j < ps.len() ==> !is_elided(#[trigger] unelide_params(ps)[j]),
    decreases ps.len(),
{
    if ps.len() > 0 {
        lemma_unelide_idempotent(ps.drop_last());
        if forall|j: int| 0 <= j < ps.len() ==> !is_elided(#[trigger] ps[j]) {
            assert forall|j: int| 0 <= j < ps.drop_last().len() implies !is_elided(#[trigger] ps.drop_last()[j]) by {
                assert(ps.drop_last()[j] == ps[j]);
            }
            assert(!is_elided(ps[ps.len() - 1]));
        }
    }
}

/// The declared return type, with an implicit `()` made explicit.
pub open spec fn declared_item(output: Option<Type>) -> Type {
    match output {
        Some(t) => t,
        None => Type::Unit,
    }
}

/// The body of a finished generator: the rewritten block inside the adapter
/// for the mode, or the rewriting error.
pub open spec fn synthesize(e: Expr, is_async: bool, by_move: bool) -> Result<Expr, TransformError> {
    match rewrite_expr(e, is_async) {
        Ok(b) => Ok(Expr::Adapter { stream: is_async, by_move, body: Box::new(b) }),
        Err(x) => Err(x),
    }
}

/// The attributes of a transformed function: the given ones, followed by
/// the delegated directive when the `throws` option was given.
pub open spec fn with_throws(attrs: Seq<Attr>, throws: Option<String>) -> Seq<Attr> {
    match throws {
        Some(t) => attrs.push(Attr::Throws(t)),
        None => attrs,
    }
}

/// `f` is the transformation of the function `i`: the same name and kind,
/// no longer `async`, every elided borrow named, the return type replaced by
/// a sequence of the declared item type bounded by every lifetime parameter,
/// and the body rewritten and wrapped in the adapter for the mode.
pub open spec fn transformed(i: ItemFn, f: ItemFn, by_move: bool, throws: Option<String>) -> bool {
    &&& f.attrs@ == with_throws(i.attrs@, throws)
    &&& f.is_method == i.is_method
    &&& f.sig.name == i.sig.name
    &&& !f.sig.is_async
    &&& f.sig.lifetimes@ == i.sig.lifetimes@ + fresh_lifetimes(i.sig.inputs@)
    &&& f.sig.inputs@ == unelide_params(i.sig.inputs@)
    &&& f.sig.output matches Some(Type::Sequence { stream, item, bounds })
    &&& stream == i.sig.is_async
    &&& *item == declared_item(i.sig.output)
    &&& bounds@ == f.sig.lifetimes@
    &&& Ok::<Expr, TransformError>(*f.body) == synthesize(*i.body, i.sig.is_async, by_move)
}

/// The option that `args` selects, or why it is refused.
pub open spec fn throws_option(args: Option<Args>, throws_enabled: bool) -> Result<Option<String>, TransformError> {
    match args {
        None => Ok(None),
        Some(Args::Throws(t)) => if throws_enabled {
            Ok(Some(t))
        } else {
            Err(TransformError::ThrowsUnavailable)
        },
        Some(Args::Unrecognized(_)) => Err(TransformError::UnknownOption),
    }
}

/// The state of one transformation; created fresh for each invocation.
pub struct TransformContext {
    /// Whether the next function met is the one being transformed.
    pub outer_fn: bool,
    pub is_async: bool,
    /// Whether the computation captures locals by move.
    pub is_move: bool,
    /// The tokens of the `throws` option, until they have been attached.
    pub throws: Option<String>,
    /// The lifetimes the synthesized return type must be bounded by.
    pub lifetimes: Vec<Lifetime>,
}

/// Copies a lifetime name.
fn copy_lifetime(l: &Lifetime) -> (r: Lifetime)
    ensures
        r == *l,
{
    match l {
        Lifetime::Named(s) => Lifetime::Named(s.clone()),
        Lifetime::Fresh(i) => Lifetime::Fresh(*i),
    }
}

/// Copies a list of lifetime names.
fn copy_lifetimes(v: &Vec<Lifetime>) -> (r: Vec<Lifetime>)
    ensures
        r@ == v@,
{
    let mut r: Vec<Lifetime> = Vec::new();
    let mut i: usize = 0;
    while i < v.len()
        invariant
            i <= v@.len(),
            r@ == v@.take(i as int),
        decreases v@.len() - i,
    {
        r.push(copy_lifetime(&v[i]));
        assert(r@ =~= v@.take(i as int + 1));
        i = i + 1;
    }
    assert(v@.take(i as int) =~= v@);
    r
}

/// Names every elided borrow of `inputs` with a fresh lifetime and appends
/// the new names to `lifetimes`. A list without elided borrows comes back as
/// it was and adds no name.
pub fn unelide_lifetimes(lifetimes: &mut Vec<Lifetime>, inputs: Vec<Param>) -> (r: Vec<Param>)
    ensures
        r@ == unelide_params(inputs@),
        final(lifetimes)@ == old(lifetimes)@ + fresh_lifetimes(inputs@),
{
    let ghost ps = inputs@;
    let ghost start = lifetimes@;
    let n = inputs.len();
    let mut rest = inputs;
    let mut out: Vec<Param> = Vec::new();
    let mut i: usize = 0;
    while rest.len() > 0
        invariant
            i <= ps.len(),
            ps.len() == n,
            rest@ == ps.skip(i as int),
            out@ == unelide_params(ps.take(i as int)),
            lifetimes@ == start + fresh_lifetimes(ps.take(i as int)),
        decreases rest@.len(),
    {
        let p = rest.remove(0);
        assert(p == ps[i as int]);
        let ghost before = ps.take(i as int);
        let ghost after = ps.take(i as int + 1);
        assert(after.drop_last() =~= before);
        assert(after.last() == p);
        let q = match p.ty {
            Type::Ref { lifetime: None, mutable, target } => {
                lifetimes.push(Lifetime::Fresh(i));
                Param { name: p.name, ty: Type::Ref { lifetime: Some(Lifetime::Fresh(i)), mutable, target } }
            },
            ty => Param { name: p.name, ty },
        };
        out.push(q);
        assert(out@ =~= unelide_params(after));
        assert(lifetimes@ =~= start + fresh_lifetimes(after));
        i = i + 1;
    }
    assert(ps.take(i as int) =~= ps);
    out
}

/// Every lifetime that a parameter borrows for is one of the signature's
/// lifetime parameters.
pub open spec fn declares_borrows(sig: Signature) -> bool {
    forall|j: int| 0 <= j < sig.inputs@.len() ==> ((#[trigger] sig.inputs@[j]).ty matches Type::Ref { lifetime: Some(l), .. }
        ==> sig.lifetimes@.contains(l))
}

/// The sequence type returned by a transformed function is bounded by `l`.
pub open spec fn result_bounded_by(f: ItemFn, l: Lifetime) -> bool {
    f.sig.output matches Some(Type::Sequence { bounds, .. }) && bounds@.contains(l)
}

proof fn lemma_fresh_lifetime_listed(ps: Seq<Param>, j: int)
    requires
        0 <= j < ps.len(),
        is_elided(ps[j]),
    ensures
        fresh_lifetimes(ps).contains(Lifetime::Fresh(j as usize)),
    decreases ps.len(),
{
    if j == ps.len() - 1 {
        assert(fresh_lifetimes(ps).last() == Lifetime::Fresh(j as usize));
    } else {
        assert(ps.drop_last()[j] == ps[j]);
        lemma_fresh_lifetime_listed(ps.drop_last(), j);
        let w = choose|k: int| 0 <= k < fresh_lifetimes(ps.drop_last()).len()
            && fresh_lifetimes(ps.drop_last())[k] == Lifetime::Fresh(j as usize);
        assert(fresh_lifetimes(ps)[w] == Lifetime::Fresh(j as usize));
    }
}

/// A function transformed by the attribute returns a sequence that cannot
/// outlive anything it borrows: every borrowed parameter now names its
/// lifetime, and that lifetime bounds the returned sequence. Its computation
/// owns what it captures, so the sequence can be moved and dropped apart from
/// the call that made it.
pub proof fn lemma_result_bounded_by_borrows(i: ItemFn, f: ItemFn, throws: Option<String>)
    requires
        declares_borrows(i.sig),
        transformed(i, f, true, throws),
    ensures
        forall|j: int| 0 <= j < f.sig.inputs@.len() && (#[trigger] f.sig.inputs@[j]).ty is Ref ==>
            (f.sig.inputs@[j].ty matches Type::Ref { lifetime: Some(l), .. } && result_bounded_by(f, l)),
        *f.body matches Expr::Adapter { by_move, .. } && by_move,
{
    let ps = i.sig.inputs@;
    let all = f.sig.lifetimes@;
    assert forall|j: int| 0 <= j < f.sig.inputs@.len() && (#[trigger] f.sig.inputs@[j]).ty is Ref implies
        (f.sig.inputs@[j].ty matches Type::Ref { lifetime: Some(l), .. } && result_bounded_by(f, l)) by {
        assert(f.sig.inputs@[j] == unelide_param(ps[j], j));
        if is_elided(ps[j]) {
            lemma_fresh_lifetime_listed(ps, j);
            let k = choose|k: int| 0 <= k < fresh_lifetimes(ps).len() && fresh_lifetimes(ps)[k] == Lifetime::Fresh(j as usize);
            assert(all[i.sig.lifetimes@.len() + k] == Lifetime::Fresh(j as usize));
        } else {
            let l = ps[j].ty->Ref_lifetime->Some_0;
            assert(i.sig.lifetimes@.contains(l));
            let k = choose|k: int| 0 <= k < i.sig.lifetimes@.len() && i.sig.lifetimes@[k] == l;
            assert(all[k] == l);
        }
    }
}

impl TransformContext {
    /// Rewrites an expression by the rules of the current mode.
    pub fn fold_expr(&self, e: Expr) -> (r: Result<Expr, TransformError>)
        ensures
            r == rewrite_expr(e, self.is_async),
        decreases e,
    {
        match e {
            Expr::Then(a, b) => {
                let a2 = match self.fold_expr(*a) {
                    Ok(x) => x,
                    Err(x) => return Err(x),
                };
                let b2 = match self.fold_expr(*b) {
                    Ok(x) => x,
                    Err(x) => return Err(x),
                };
                Ok(Expr::Then(Box::new(a2), Box::new(b2)))
            },
            Expr::Call(a, b) => {
                let a2 = match self.fold_expr(*a) {
                    Ok(x) => x,
                    Err(x) => return Err(x),
                };
                let b2 = match self.fold_expr(*b) {
                    Ok(x) => x,
                    Err(x) => return Err(x),
                };
                Ok(Expr::Call(Box::new(a2), Box::new(b2)))
            },
            Expr::For(p, a, b) => {
                let a2 = match self.fold_expr(*a) {
                    Ok(x) => x,
                    Err(x) => return Err(x),
                };
                let b2 = match self.fold_expr(*b) {
                    Ok(x) => x,
                    Err(x) => return Err(x),
                };
                Ok(Expr::For(p, Box::new(a2), Box::new(b2)))
            },
            Expr::Try(a) => {
                let a2 = match self.fold_expr(*a) {
                    Ok(x) => x,
                    Err(x) => return Err(x),
                };
                if self.is_async {
                    Ok(Expr::AsyncGenTry(Box::new(a2)))
                } else {
                    Ok(Expr::GenTry(Box::new(a2)))
                }
            },
            Expr::Yield(Some(a)) => {
                let a2 = match self.fold_expr(*a) {
                    Ok(x) => x,
                    Err(x) => return Err(x),
                };
                if self.is_async {
                    Ok(Expr::AsyncGenYield(Box::new(a2)))
                } else {
                    Ok(Expr::Yield(Some(Box::new(a2))))
                }
            },
            Expr::Yield(None) => {
                if self.is_async {
                    Ok(Expr::AsyncGenYield(Box::new(Expr::Unit)))
                } else {
                    Ok(Expr::Yield(None))
                }
            },
            Expr::Await(a) => {
                let a2 = match self.fold_expr(*a) {
                    Ok(x) => x,
                    Err(x) => return Err(x),
                };
                if self.is_async {
                    Ok(Expr::AsyncGenAwait(Box::new(a2)))
                } else {
                    Err(TransformError::AwaitOutsideAsync)
                }
            },
            other => Ok(other),
        }
    }
}


impl TransformContext {
    pub fn new(outer_fn: bool, is_async: bool, is_move: bool, throws: Option<String>) -> (r: Self)
        ensures
            r.outer_fn == outer_fn,
            r.is_async == is_async,
            r.is_move == is_move,
            r.throws == throws,
            r.lifetimes@.len() == 0,
    {
        TransformContext { outer_fn, is_async, is_move, throws, lifetimes: Vec::new() }
    }

    /// Wraps a rewritten body in a suspendable computation and the adapter
    /// for the mode.
    pub fn finish(&self, block: Expr) -> (r: Expr)
        ensures
            r == (Expr::Adapter { stream: self.is_async, by_move: self.is_move, body: Box::new(block) }),
    {
        Expr::Adapter { stream: self.is_async, by_move: self.is_move, body: Box::new(block) }
    }

    /// Rewrites a block and finishes it.
    pub fn block(&self, input: Expr) -> (r: Result<Expr, TransformError>)
        ensures
            r == synthesize(input, self.is_async, self.is_move),
    {
        match self.fold_expr(input) {
            Ok(b) => Ok(self.finish(b)),
            Err(x) => Err(x),
        }
    }

    /// Attaches the delegated `throws` directive, once.
    pub fn visit_fn_attrs(&mut self, attrs: &mut Vec<Attr>)
        ensures
            final(attrs)@ == with_throws(old(attrs)@, old(self).throws),
            final(self).throws is None,
            final(self).outer_fn == old(self).outer_fn,
            final(self).is_async == old(self).is_async,
            final(self).is_move == old(self).is_move,
            final(self).lifetimes == old(self).lifetimes,
    {
        let mut t: Option<String> = None;
        std::mem::swap(&mut t, &mut self.throws);
        if let Some(args) = t {
            attrs.push(Attr::Throws(args));
        }
    }

    /// Replaces the declared return type of the outer function by a sequence
    /// of it, bounded by the recorded lifetimes, which are used up. Elsewhere
    /// the type is kept.
    pub fn fold_return_type(&mut self, output: Option<Type>) -> (r: Option<Type>)
        ensures
            !old(self).outer_fn ==> r == output && *final(self) == *old(self),
            old(self).outer_fn ==> {
                &&& r matches Some(Type::Sequence { stream, item, bounds })
                &&& stream == old(self).is_async
                &&& *item == declared_item(output)
                &&& bounds@ == old(self).lifetimes@
                &&& final(self).lifetimes@.len() == 0
                &&& final(self).outer_fn == old(self).outer_fn
                &&& final(self).is_async == old(self).is_async
                &&& final(self).is_move == old(self).is_move
                &&& final(self).throws == old(self).throws
            },
    {
        if !self.outer_fn {
            return output;
        }
        let item = match output {
            Some(t) => t,
            None => Type::Unit,
        };
        let mut bounds: Vec<Lifetime> = Vec::new();
        std::mem::swap(&mut bounds, &mut self.lifetimes);
        Some(Type::Sequence { stream: self.is_async, item: Box::new(item), bounds })
    }

    /// Transforms the outer function or method: records its mode, names its
    /// elided borrows, synthesizes its return type and rewrites its body. A
    /// nested function is returned as it is.
    pub fn fold_item_fn(&mut self, i: ItemFn) -> (r: Result<ItemFn, TransformError>)
        ensures
            !old(self).outer_fn ==> r == Ok::<ItemFn, TransformError>(i) && *final(self) == *old(self),
            old(self).outer_fn ==> {
                &&& final(self).is_async == i.sig.is_async
                &&& final(self).is_move == old(self).is_move
                &&& final(self).lifetimes@.len() == 0
                &&& r is Err <==> rewrite_expr(*i.body, i.sig.is_async) is Err
                &&& r is Err ==> r->Err_0 == rewrite_expr(*i.body, i.sig.is_async)->Err_0
                &&& r matches Ok(f) ==> transformed(i, f, old(self).is_move, old(self).throws)
                &&& !final(self).outer_fn
                &&& final(self).throws is None
            },
    {
        if !self.outer_fn {
            return Ok(i);
        }
        let ghost i0 = i;
        let ItemFn { mut attrs, sig, body, is_method } = i;
        self.visit_fn_attrs(&mut attrs);
        let Signature { name, is_async, mut lifetimes, inputs, output } = sig;
        let inputs = unelide_lifetimes(&mut lifetimes, inputs);
        self.lifetimes = copy_lifetimes(&lifetimes);
        self.is_async = is_async;
        let output = self.fold_return_type(output);
        self.outer_fn = false;
        let block = match self.block(*body) {
            Ok(b) => b,
            Err(x) => return Err(x),
        };
        let f = ItemFn {
            attrs,
            sig: Signature { name, is_async: false, lifetimes, inputs, output },
            body: Box::new(block),
            is_method,
        };
        assert(transformed(i0, f, self.is_move, old(self).throws));
        Ok(f)
    }
}

/// The function attribute: transforms a free function or a method into one
/// that returns a pull iterator, or a stream when it is `async`. The
/// computation owns what it captures. The only option accepted is `throws`,
/// and only when the error-wrapping integration is available.
pub fn generator(args: Option<Args>, input: ItemFn, throws_enabled: bool) -> (r: Result<ItemFn, TransformError>)
    ensures
        throws_option(args, throws_enabled) is Err ==> r == Err::<ItemFn, TransformError>(throws_option(args, throws_enabled)->Err_0),
        throws_option(args, throws_enabled) matches Ok(throws) ==> {
            &&& r is Err <==> rewrite_expr(*input.body, input.sig.is_async) is Err
            &&& r is Err ==> r->Err_0 == rewrite_expr(*input.body, input.sig.is_async)->Err_0
            &&& r matches Ok(f) ==> transformed(input, f, true, throws)
        },
{
    let throws = match args {
        None => None,
        Some(Args::Throws(t)) => {
            if !throws_enabled {
                return Err(TransformError::ThrowsUnavailable);
            }
            Some(t)
        },
        Some(Args::Unrecognized(_)) => return Err(TransformError::UnknownOption),
    };
    let mut folder = TransformContext::new(true, false, true, throws);
    folder.fold_item_fn(input)
}

/// A synchronous generator block that borrows what it captures.
pub fn gen(input: Expr) -> (r: Result<Expr, TransformError>)
    ensures
        r == synthesize(input, false, false),
{
    TransformContext::new(false, false, false, None).block(input)
}

/// A synchronous generator block that owns what it captures.
pub fn gen_move(input: Expr) -> (r: Result<Expr, TransformError>)
    ensures
        r == synthesize(input, false, true),
{
    TransformContext::new(false, false, true, None).block(input)
}

/// An asynchronous generator block that borrows what it captures.
pub fn async_gen(input: Expr) -> (r: Result<Expr, TransformError>)
    ensures
        r == synthesize(input, true, false),
{
    TransformContext::new(false, true, false, None).block(input)
}

/// An asynchronous generator block that owns what it captures.
pub fn async_gen_move(input: Expr) -> (r: Result<Expr, TransformError>)
    ensures
        r == synthesize(input, true, true),
{
    TransformContext::new(false, true, true, None).block(input)
}

} // verus!
