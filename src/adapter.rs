use vstd::prelude::*;
use crate::state::{AsyncGenerator, Generator, GeneratorState, Poll};

verus! {

/// What a pull reports for a resumption outcome.
pub open spec fn pull_result<Y>(o: GeneratorState<Y>) -> Option<Y> {
    match o {
        GeneratorState::Yielded(y) => Some(y),
        GeneratorState::Complete => None,
    }
}

/// What a stream poll reports for a resumption outcome.
pub open spec fn poll_result<T>(o: GeneratorState<Poll<T>>) -> Poll<Option<T>> {
    match o {
        GeneratorState::Yielded(Poll::Ready(t)) => Poll::Ready(Some(t)),
        GeneratorState::Yielded(Poll::Pending) => Poll::Pending,
        GeneratorState::Complete => Poll::Ready(None),
    }
}

/// The resumption outcome that a stream poll result reports.
pub open spec fn resumed_from<T>(r: Poll<Option<T>>) -> GeneratorState<Poll<T>> {
    match r {
        Poll::Ready(Some(t)) => GeneratorState::Yielded(Poll::Ready(t)),
        Poll::Pending => GeneratorState::Yielded(Poll::Pending),
        Poll::Ready(None) => GeneratorState::Complete,
    }
}

/// One pull on an iterator whose remaining values are `rem`: what is left
/// afterwards, and what the pull reports.
pub open spec fn pull_model<Y>(rem: Seq<Y>) -> (Seq<Y>, Option<Y>) {
    if rem.len() == 0 {
        (Seq::empty(), None)
    } else {
        (rem.drop_first(), Some(rem[0]))
    }
}

/// What `n` successive pulls report on an iterator whose remaining values
/// are `rem`.
pub open spec fn pulls<Y>(rem: Seq<Y>, n: nat) -> Seq<Option<Y>>
    decreases n,
{
    if n == 0 {
        Seq::empty()
    } else {
        seq![pull_model(rem).1] + pulls(pull_model(rem).0, (n - 1) as nat)
    }
}

/// Successive pulls report the remaining values in order, then exhaustion on
/// every later pull, however many there are.
pub proof fn lemma_pulls<Y>(rem: Seq<Y>, n: nat)
    ensures
        pulls(rem, n).len() == n,
        forall|k: int| 0 <= k < n ==> #[trigger] pulls(rem, n)[k] == if k < rem.len() {
            Some(rem[k])
        } else {
            None::<Y>
        },
    decreases n,
{
    if n > 0 {
        let rest = pull_model(rem).0;
        lemma_pulls(rest, (n - 1) as nat);
        assert forall|k: int| 0 <= k < n implies #[trigger] pulls(rem, n)[k] == if k < rem.len() {
            Some(rem[k])
        } else {
            None::<Y>
        } by {
            if k > 0 {
                assert(pulls(rem, n)[k] == pulls(rest, (n - 1) as nat)[k - 1]);
                if k < rem.len() {
                    assert(rest[k - 1] == rem[k]);
                }
            }
        }
    }
}

/// Exhaustion is sticky: once a pull has reported exhaustion, every later
/// pull reports it too.
pub proof fn lemma_exhaustion_sticky<Y>(rem: Seq<Y>, n: nat, k: int)
    requires
        0 <= k < n,
        pulls(rem, n)[k] is None,
    ensures
        forall|j: int| k <= j < n ==> #[trigger] pulls(rem, n)[j] is None,
{
    lemma_pulls(rem, n);
}

/// A pull iterator over a synchronous suspendable computation.
///
/// Once the computation has completed, the iterator never resumes it again
/// and every later pull reports exhaustion.
pub struct GenIter<G> {
    gen: G,
    done: bool,
}

impl<G: Generator> GenIter<G> {
    /// The owned computation.
    pub closed spec fn computation(&self) -> G {
        self.gen
    }

    /// Whether a pull has already reported exhaustion.
    pub closed spec fn is_exhausted(&self) -> bool {
        self.done
    }

    /// Values that later pulls will produce, in order.
    pub open spec fn remaining(&self) -> Seq<G::Yield> {
        if self.is_exhausted() {
            Seq::empty()
        } else {
            self.computation().pending()
        }
    }

    pub fn new(gen: G) -> (r: Self)
        ensures
            r.computation() == gen,
            !r.is_exhausted(),
            r.remaining() == gen.pending(),
    {
        GenIter { gen, done: false }
    }

    /// Resumes the computation once, unless it has completed before.
    pub fn next(&mut self) -> (r: Option<G::Yield>)
        ensures
            old(self).is_exhausted() ==> r is None && *final(self) == *old(self),
            old(self).remaining().len() == 0 ==> r is None && final(self).is_exhausted()
                && final(self).remaining().len() == 0,
            old(self).remaining().len() > 0 ==> r == Some(old(self).remaining()[0])
                && !final(self).is_exhausted()
                && final(self).remaining() == old(self).remaining().drop_first(),
            (final(self).remaining(), r) == pull_model(old(self).remaining()),
            !old(self).is_exhausted() ==> final(self).computation().pending() == pull_model(old(self).computation().pending()).0,
    {
        if self.done {
            return None;
        }
        let o = self.gen.resume();
        let (r, done) = settle_pull(o);
        self.done = done;
        r
    }
}

/// Turns a resumption outcome into a pull result and whether the iterator is
/// now exhausted.
pub fn settle_pull<Y>(o: GeneratorState<Y>) -> (r: (Option<Y>, bool))
    ensures
        r.0 == pull_result(o),
        r.1 == (o is Complete),
{
    match o {
        GeneratorState::Yielded(y) => (Some(y), false),
        GeneratorState::Complete => (None, true),
    }
}

/// Turns a resumption outcome of an asynchronous computation into a stream
/// poll result and whether the stream has now ended.
pub fn settle_poll<T>(o: GeneratorState<Poll<T>>) -> (r: (Poll<Option<T>>, bool))
    ensures
        r.0 == poll_result(o),
        r.1 == (o is Complete),
{
    match o {
        GeneratorState::Yielded(Poll::Ready(t)) => (Poll::Ready(Some(t)), false),
        GeneratorState::Yielded(Poll::Pending) => (Poll::Pending, false),
        GeneratorState::Complete => (Poll::Ready(None), true),
    }
}

/// A poll-driven stream over an asynchronous suspendable computation.
///
/// At most one poll is in flight at a time, which `&mut self` enforces. Once
/// the computation has completed, the stream never resumes it again and every
/// later poll reports that it has ended.
pub struct GenStream<G> {
    gen: G,
    done: bool,
}

impl<G: AsyncGenerator> GenStream<G> {
    /// The owned computation.
    pub closed spec fn computation(&self) -> G {
        self.gen
    }

    /// Whether a poll has already reported the end of the stream.
    pub closed spec fn is_ended(&self) -> bool {
        self.done
    }

    /// Wraps a computation. It must hold no reference into its own parked
    /// state across a suspension point; here that is ensured by ownership,
    /// since the computation is moved into the stream.
    pub fn new(gen: G) -> (r: Self)
        ensures
            r.computation() == gen,
            !r.is_ended(),
    {
        GenStream { gen, done: false }
    }

    /// The owned computation, to read.
    pub fn get_ref(&self) -> (r: &G)
        ensures
            *r == self.computation(),
    {
        &self.gen
    }

    /// Resumes the computation once with the driver's context, unless it has
    /// completed before.
    pub fn poll_next(&mut self, cx: G::Context) -> (r: Poll<Option<G::Item>>)
        ensures
            old(self).is_ended() ==> r == Poll::<Option<G::Item>>::Ready(None) && *final(self) == *old(self),
            !old(self).is_ended() ==> {
                &&& old(self).computation().resumes_to(cx, final(self).computation(), resumed_from(r))
                &&& final(self).is_ended() == (r == Poll::<Option<G::Item>>::Ready(None))
            },
    {
        if self.done {
            return Poll::Ready(None);
        }
        let o = self.gen.resume(cx);
        let (r, done) = settle_poll(o);
        self.done = done;
        r
    }
}

} // verus!
