use vstd::prelude::*;
use crate::adapter::{lemma_pulls, pulls, resumed_from, GenIter, GenStream};
use crate::state::{AsyncGenerator, Generator, GeneratorState, Poll};

verus! {

/// One step of a synchronous generator body, as the rewritten function runs
/// it.
pub enum Step<Y> {
    /// Emit a value and suspend.
    Emit(Y),
    /// The early-exit-on-error construct on an evaluated operand: `Ok` goes
    /// on; `Err` holds the failure as the item it is emitted as, after which
    /// the body ends.
    Propagate(Result<(), Y>),
    /// Return from the body.
    Return,
}

/// One step of an asynchronous generator body.
pub enum AsyncStep<Y> {
    Emit(Y),
    Propagate(Result<(), Y>),
    /// Suspend until the awaited outside computation reports ready.
    Await,
    Return,
}

/// The values that the body `p`, run directly, emits before it returns.
pub open spec fn direct_emits<Y>(p: Seq<Step<Y>>) -> Seq<Y>
    decreases p.len(),
{
    if p.len() == 0 {
        Seq::empty()
    } else {
        match p[0] {
            Step::Emit(y) => seq![y] + direct_emits(p.drop_first()),
            Step::Propagate(Ok(())) => direct_emits(p.drop_first()),
            Step::Propagate(Err(f)) => seq![f],
            Step::Return => Seq::empty(),
        }
    }
}

/// One resumption of the asynchronous body `p`, where `ready` says whether
/// the awaited computation, polled with the context given, reports ready. A
/// report answers one wait: a later wait in the same resumption is pending.
/// Gives the steps left and what the resumption reports.
pub open spec fn run_async<Y>(p: Seq<AsyncStep<Y>>, ready: bool) -> (Seq<AsyncStep<Y>>, GeneratorState<Poll<Y>>)
    decreases p.len(),
{
    if p.len() == 0 {
        (p, GeneratorState::Complete)
    } else {
        match p[0] {
            AsyncStep::Emit(y) => (p.drop_first(), GeneratorState::Yielded(Poll::Ready(y))),
            AsyncStep::Propagate(Ok(())) => run_async(p.drop_first(), ready),
            AsyncStep::Propagate(Err(f)) => (Seq::empty(), GeneratorState::Yielded(Poll::Ready(f))),
            AsyncStep::Await => if ready {
                run_async(p.drop_first(), false)
            } else {
                (p, GeneratorState::Yielded(Poll::Pending))
            },
            AsyncStep::Return => (Seq::empty(), GeneratorState::Complete),
        }
    }
}

/// The sequence read from its end.
pub open spec fn reversed<T>(s: Seq<T>) -> Seq<T> {
    Seq::new(s.len(), |i: int| s[s.len() - 1 - i])
}

/// The elements of `v` in the opposite order.
fn reverse_vec<T>(v: Vec<T>) -> (r: Vec<T>)
    ensures
        r@ == reversed(v@),
{
    let ghost p = v@;
    let mut v = v;
    let mut r: Vec<T> = Vec::new();
    while v.len() > 0
        invariant
            v@ == p.take(v@.len() as int),
            v@.len() <= p.len(),
            r@ == reversed(p).take(p.len() - v@.len()),
        decreases v@.len(),
    {
        let x = v.pop().unwrap();
        r.push(x);
        assert(r@ =~= reversed(p).take(p.len() - v@.len()));
        assert(v@ =~= p.take(v@.len() as int));
    }
    assert(r@ =~= reversed(p));
    r
}

/// Whether the body `p`, resumed now, reaches a wait before anything else:
/// its next step, past early exits that succeed, is a wait.
pub open spec fn next_waits<Y>(p: Seq<AsyncStep<Y>>) -> bool
    decreases p.len(),
{
    if p.len() == 0 {
        false
    } else {
        match p[0] {
            AsyncStep::Propagate(Ok(())) => next_waits(p.drop_first()),
            AsyncStep::Await => true,
            _ => false,
        }
    }
}

/// A synchronous generator body as a suspendable computation.
pub struct Body<Y> {
    /// The steps still to run; the next one is the last.
    rev: Vec<Step<Y>>,
}

impl<Y> Body<Y> {
    /// The steps still to run, in order.
    pub closed spec fn program(&self) -> Seq<Step<Y>> {
        reversed(self.rev@)
    }

    pub fn new(steps: Vec<Step<Y>>) -> (r: Self)
        ensures
            r.program() == steps@,
    {
        let rev = reverse_vec(steps);
        assert(reversed(rev@) =~= steps@);
        Body { rev }
    }
}

impl<Y> Generator for Body<Y> {
    type Yield = Y;

    open spec fn pending(&self) -> Seq<Y> {
        direct_emits(self.program())
    }

    fn resume(&mut self) -> (r: GeneratorState<Y>) {
        loop
            invariant
                direct_emits(self.program()) == direct_emits(old(self).program()),
            decreases self.rev@.len(),
        {
            let ghost before = self.program();
            match self.rev.pop() {
                None => {
                    return GeneratorState::Complete;
                },
                Some(Step::Emit(y)) => {
                    assert(self.program() =~= before.drop_first());
                    return GeneratorState::Yielded(y);
                },
                Some(Step::Propagate(Ok(()))) => {
                    assert(self.program() =~= before.drop_first());
                },
                Some(Step::Propagate(Err(f))) => {
                    self.rev.clear();
                    assert(self.program() =~= Seq::<Step<Y>>::empty());
                    return GeneratorState::Yielded(f);
                },
                Some(Step::Return) => {
                    self.rev.clear();
                    assert(self.program() =~= Seq::<Step<Y>>::empty());
                    return GeneratorState::Complete;
                },
            }
        }
    }
}

/// An asynchronous generator body as a suspendable computation. Its poll
/// context is whether the computation it awaits reports ready.
pub struct AsyncBody<Y> {
    rev: Vec<AsyncStep<Y>>,
}

impl<Y> AsyncBody<Y> {
    /// The steps still to run, in order.
    pub closed spec fn program(&self) -> Seq<AsyncStep<Y>> {
        reversed(self.rev@)
    }

    pub fn new(steps: Vec<AsyncStep<Y>>) -> (r: Self)
        ensures
            r.program() == steps@,
    {
        let rev = reverse_vec(steps);
        assert(reversed(rev@) =~= steps@);
        AsyncBody { rev }
    }

    /// Whether a resumption now would reach a wait before anything else, so
    /// that its poll context should report on the awaited computation.
    pub fn waiting(&self) -> (r: bool)
        ensures
            r == next_waits(self.program()),
    {
        let mut i: usize = self.rev.len();
        assert(self.rev@.take(i as int) =~= self.rev@);
        while i > 0
            invariant
                i <= self.rev@.len(),
                next_waits(self.program()) == next_waits(reversed(self.rev@.take(i as int))),
            decreases i,
        {
            let ghost q = reversed(self.rev@.take(i as int));
            assert(q.drop_first() =~= reversed(self.rev@.take(i - 1)));
            match &self.rev[i - 1] {
                AsyncStep::Propagate(Ok(())) => {
                    i = i - 1;
                },
                AsyncStep::Await => {
                    return true;
                },
                _ => {
                    return false;
                },
            }
        }
        false
    }
}

impl<Y> AsyncGenerator for AsyncBody<Y> {
    type Item = Y;
    type Context = bool;

    open spec fn resumes_to(&self, cx: bool, next: Self, r: GeneratorState<Poll<Y>>) -> bool {
        (next.program(), r) == run_async(self.program(), cx)
    }

    fn resume(&mut self, cx: bool) -> (r: GeneratorState<Poll<Y>>) {
        let mut ready = cx;
        loop
            invariant
                run_async(self.program(), ready) == run_async(old(self).program(), cx),
            decreases self.rev@.len(),
        {
            let ghost before = self.program();
            match self.rev.pop() {
                None => {
                    return GeneratorState::Complete;
                },
                Some(AsyncStep::Emit(y)) => {
                    assert(self.program() =~= before.drop_first());
                    return GeneratorState::Yielded(Poll::Ready(y));
                },
                Some(AsyncStep::Propagate(Ok(()))) => {
                    assert(self.program() =~= before.drop_first());
                },
                Some(AsyncStep::Propagate(Err(f))) => {
                    self.rev.clear();
                    assert(self.program() =~= Seq::<AsyncStep<Y>>::empty());
                    return GeneratorState::Yielded(Poll::Ready(f));
                },
                Some(AsyncStep::Await) => {
                    if ready {
                        assert(self.program() =~= before.drop_first());
                        ready = false;
                    } else {
                        self.rev.push(AsyncStep::Await);
                        assert(self.program() =~= before);
                        return GeneratorState::Yielded(Poll::Pending);
                    }
                },
                Some(AsyncStep::Return) => {
                    self.rev.clear();
                    assert(self.program() =~= Seq::<AsyncStep<Y>>::empty());
                    return GeneratorState::Complete;
                },
            }
        }
    }
}


/// With no failing early exit in the body, what it emits directly is what
/// its emit steps carry, up to its first return.
pub open spec fn emits_until_return<Y>(p: Seq<Step<Y>>) -> Seq<Y>
    decreases p.len(),
{
    if p.len() == 0 {
        Seq::empty()
    } else {
        match p[0] {
            Step::Emit(y) => seq![y] + emits_until_return(p.drop_first()),
            Step::Return => Seq::empty(),
            _ => emits_until_return(p.drop_first()),
        }
    }
}

/// A body in which no early exit fails emits, when run directly, the values
/// of its emit steps up to its first return.
pub proof fn lemma_direct_run_without_failure<Y>(p: Seq<Step<Y>>)
    requires
        forall|k: int| 0 <= k < p.len() ==> !(#[trigger] p[k] matches Step::Propagate(Err(_))),
    ensures
        direct_emits(p) == emits_until_return(p),
    decreases p.len(),
{
    if p.len() > 0 {
        assert forall|k: int| 0 <= k < p.drop_first().len() implies !(#[trigger] p.drop_first()[k] matches Step::Propagate(Err(_))) by {
            assert(p.drop_first()[k] == p[k + 1]);
        }
        lemma_direct_run_without_failure(p.drop_first());
        assert(!(p[0] matches Step::Propagate(Err(_))));
    }
}

/// A pull iterator freshly made over a body in which no early exit fails
/// produces exactly the values that the body, run directly, emits up to its
/// return, in order; from there on every pull reports exhaustion.
pub proof fn lemma_pulls_follow_direct_run<Y>(it: GenIter<Body<Y>>, n: nat)
    requires
        !it.is_exhausted(),
        forall|k: int| 0 <= k < it.computation().program().len()
            ==> !(#[trigger] it.computation().program()[k] matches Step::Propagate(Err(_))),
    ensures
        pulls(it.remaining(), n).len() == n,
        forall|k: int| 0 <= k < n ==> #[trigger] pulls(it.remaining(), n)[k] == if k < emits_until_return(it.computation().program()).len() {
            Some(emits_until_return(it.computation().program())[k])
        } else {
            None::<Y>
        },
{
    lemma_direct_run_without_failure(it.computation().program());
    lemma_pulls(it.remaining(), n);
}

/// Once a failing early exit is reached, the failure is the last value the
/// body produces: it comes right after what was emitted before it, and every
/// later pull reports exhaustion.
proof fn lemma_failure_ends_direct_run<Y>(p: Seq<Step<Y>>, k: int, f: Y, n: nat)
    requires
        0 <= k < p.len(),
        p[k] == Step::Propagate(Err(f)),
        forall|j: int| 0 <= j < k ==> !(#[trigger] p[j] is Return) && !(p[j] matches Step::Propagate(Err(_))),
    ensures
        direct_emits(p) == direct_emits(p.take(k)).push(f),
        forall|j: int| direct_emits(p).len() <= j < n ==> #[trigger] pulls(direct_emits(p), n)[j] is None,
        direct_emits(p).len() <= n ==> pulls(direct_emits(p), n)[direct_emits(p).len() - 1] == Some(f),
    decreases k,
{
    if k > 0 {
        let q = p.drop_first();
        assert forall|j: int| 0 <= j < k - 1 implies !(#[trigger] q[j] is Return) && !(q[j] matches Step::Propagate(Err(_))) by {
            assert(q[j] == p[j + 1]);
        }
        lemma_failure_ends_direct_run(q, k - 1, f, n);
        assert(p.take(k).drop_first() =~= q.take(k - 1));
        assert(!(p[0] is Return) && !(p[0] matches Step::Propagate(Err(_))));
        assert(p.take(k)[0] == p[0]);
    } else {
        assert(direct_emits(p.take(0)) =~= Seq::<Y>::empty());
        assert(direct_emits(p) =~= seq![f]);
    }
    lemma_pulls(direct_emits(p), n);
}

/// A pull iterator freshly made over a body whose early exit at step `k`
/// fails with `f`, reached without an earlier return or failure, produces
/// what the steps before `k` emit, then `f`, and after `f` reports
/// exhaustion on every pull: it never produces a second item after a failure.
pub proof fn lemma_failure_ends_pulls<Y>(it: GenIter<Body<Y>>, k: int, f: Y, n: nat)
    requires
        !it.is_exhausted(),
        0 <= k < it.computation().program().len(),
        it.computation().program()[k] == Step::Propagate(Err(f)),
        forall|j: int| 0 <= j < k ==> !(#[trigger] it.computation().program()[j] is Return)
            && !(it.computation().program()[j] matches Step::Propagate(Err(_))),
    ensures
        it.remaining() == direct_emits(it.computation().program().take(k)).push(f),
        forall|j: int| it.remaining().len() <= j < n ==> #[trigger] pulls(it.remaining(), n)[j] is None,
        it.remaining().len() <= n ==> pulls(it.remaining(), n)[it.remaining().len() - 1] == Some(f),
{
    lemma_failure_ends_direct_run(it.computation().program(), k, f, n);
}

proof fn lemma_run_async_waits<Y>(p: Seq<AsyncStep<Y>>, k: int)
    requires
        0 <= k < p.len(),
        p[k] is Await,
        forall|j: int| 0 <= j < k ==> #[trigger] p[j] == AsyncStep::<Y>::Propagate(Ok(())),
    ensures
        run_async(p, false) == (p.skip(k), GeneratorState::<Poll<Y>>::Yielded(Poll::Pending)),
    decreases k,
{
    if k > 0 {
        let q = p.drop_first();
        assert forall|j: int| 0 <= j < k - 1 implies #[trigger] q[j] == AsyncStep::<Y>::Propagate(Ok(())) by {
            assert(q[j] == p[j + 1]);
        }
        lemma_run_async_waits(q, k - 1);
        assert(q.skip(k - 1) =~= p.skip(k));
        assert(p[0] == AsyncStep::<Y>::Propagate(Ok(())));
    } else {
        assert(p.skip(0) =~= p);
    }
}

/// An asynchronous body never skips a wait: when the computation it awaits
/// next is not ready, a poll of its stream reports pending, without an item,
/// and the body stays at that wait.
pub proof fn lemma_pending_wait_not_skipped<Y>(s: GenStream<AsyncBody<Y>>, t: GenStream<AsyncBody<Y>>, r: Poll<Option<Y>>, k: int)
    requires
        !s.is_ended(),
        0 <= k < s.computation().program().len(),
        s.computation().program()[k] is Await,
        forall|j: int| 0 <= j < k ==> #[trigger] s.computation().program()[j] == AsyncStep::<Y>::Propagate(Ok(())),
        s.computation().resumes_to(false, t.computation(), resumed_from(r)),
        t.is_ended() == (r == Poll::<Option<Y>>::Ready(None)),
    ensures
        r == Poll::<Option<Y>>::Pending,
        !t.is_ended(),
        t.computation().program() == s.computation().program().skip(k),
{
    lemma_run_async_waits(s.computation().program(), k);
}

} // verus!
