//! The accumulation actor: a streaming dot product per group.
use vstd::prelude::*;
use crate::ActorError;
use crate::scalar::{
    accumulates, applies, arithmetic_is_functional, lemma_accumulates_functional, multiply_accumulate,
    Arith, BinaryOpType,
};
use crate::timing::{Emission, Pacer};

verus! {

/// Accumulation actor: a streaming dot product. Per group of
/// `inner_loop_bound` pairs `(a, b)` it keeps a running sum of `a * b`, seeded
/// with the group's first product, and emits only the group's total.
pub struct MatVecProd<A> {
    pub pacer: Pacer,
    pub inner_loop_bound: u64,
    pub outer_loop_bound: u64,
    /// Groups completed so far.
    pub group: u64,
    /// Pairs of the current group consumed so far.
    pub step: u64,
    /// The running sum of the current group; meaningful once `step > 0`.
    pub acc: Option<A>,
}

impl<A: Arith> MatVecProd<A> {
    pub open spec fn wf(self) -> bool {
        &&& self.inner_loop_bound >= 1
        &&& self.group <= self.outer_loop_bound
        &&& self.step < self.inner_loop_bound
        &&& self.group == self.outer_loop_bound ==> self.step == 0
        &&& self.step > 0 ==> self.acc is Some
    }

    pub open spec fn is_done_spec(self) -> bool {
        self.group >= self.outer_loop_bound
    }

    /// `v` is what consuming the pair `(a, b)` may make of the running sum.
    pub open spec fn folds(self, a: A, b: A, v: Option<A>) -> bool {
        if self.step == 0 {
            applies(BinaryOpType::Mul, a, b, v)
        } else {
            accumulates(self.acc.unwrap(), a, b, v)
        }
    }

    pub open spec fn ends_group(self) -> bool {
        self.step + 1 == self.inner_loop_bound
    }

    /// The state after consuming, at `now`, a pair that made the running sum `v`.
    pub open spec fn after(self, v: A, now: u64) -> Self {
        MatVecProd {
            pacer: self.pacer.issued(now),
            group: if self.ends_group() { (self.group + 1) as u64 } else { self.group },
            step: if self.ends_group() { 0 } else { (self.step + 1) as u64 },
            acc: Some(v),
            ..self
        }
    }

    /// What consuming, at `now`, a pair that made the running sum `v` emits.
    pub open spec fn emission(self, v: A, now: u64) -> Option<Emission<A>> {
        if self.ends_group() {
            Some(Emission { value: v, ready_time: self.pacer.ready_time(now) })
        } else {
            None
        }
    }

    pub fn new(latency: u64, init_interval: u64, inner_loop_bound: u64, outer_loop_bound: u64) -> (r:
        Self)
        requires
            inner_loop_bound >= 1,
        ensures
            r.wf(),
            r.pacer == (Pacer { latency, init_interval, next_issue: 0 }),
            r.inner_loop_bound == inner_loop_bound,
            r.outer_loop_bound == outer_loop_bound,
            r.group == 0,
            r.step == 0,
    {
        MatVecProd {
            pacer: Pacer::new(latency, init_interval),
            inner_loop_bound,
            outer_loop_bound,
            group: 0,
            step: 0,
            acc: None,
        }
    }

    pub fn is_done(&self) -> (r: bool)
        ensures
            r == self.is_done_spec(),
    {
        self.group >= self.outer_loop_bound
    }

    /// Consumes the next pair `(a, b)` at logical time `now`; at the end of a
    /// group the total is emitted. A failed product or sum is a domain error
    /// and leaves the actor as it was.
    pub fn consume(&mut self, a: A, b: A, now: u64) -> (r: Result<Option<Emission<A>>, ActorError>)
        requires
            old(self).wf(),
            !old(self).is_done_spec(),
        ensures
            final(self).wf(),
            match r {
                Ok(e) => {
                    &&& final(self).acc is Some
                    &&& old(self).folds(a, b, final(self).acc)
                    &&& *final(self) == old(self).after(final(self).acc.unwrap(), now)
                    &&& e == old(self).emission(final(self).acc.unwrap(), now)
                },
                Err(err) => {
                    &&& err == ActorError::DomainError
                    &&& old(self).folds(a, b, None)
                    &&& *final(self) == *old(self)
                },
            },
    {
        let next = if self.step == 0 {
            A::apply(BinaryOpType::Mul, a, b)
        } else {
            multiply_accumulate(self.acc.unwrap(), a, b)
        };
        let v = match next {
            Some(v) => v,
            None => {
                return Err(ActorError::DomainError);
            },
        };
        let ready = self.pacer.issue(now);
        self.acc = Some(v);
        if self.step + 1 == self.inner_loop_bound {
            self.step = 0;
            self.group = self.group + 1;
            Ok(Some(Emission { value: v, ready_time: ready }))
        } else {
            self.step = self.step + 1;
            Ok(None)
        }
    }

    /// An input stream has ended: a protocol violation unless every group is complete.
    pub fn input_ended(&self) -> (r: Result<(), ActorError>)
        ensures
            r is Ok <==> self.is_done_spec(),
            r is Err ==> r == Err::<(), ActorError>(ActorError::ProtocolViolation),
    {
        if self.group >= self.outer_loop_bound {
            Ok(())
        } else {
            Err(ActorError::ProtocolViolation)
        }
    }
}

impl<A: Arith> MatVecProd<A> {
    /// The state after consuming inputs whose outcomes were `vs`, at the
    /// logical times `clock`.
    pub open spec fn trace(self, vs: Seq<A>, clock: Seq<u64>) -> Self
        decreases vs.len(),
    {
        if vs.len() == 0 {
            self
        } else {
            self.trace(vs.drop_last(), clock.drop_last()).after(vs.last(), clock.last())
        }
    }

    /// Consuming `xs` one by one at the logical times `clock` may have the
    /// outcomes `vs`, without a domain error.
    pub open spec fn runs(self, xs: Seq<(A, A)>, vs: Seq<A>, clock: Seq<u64>) -> bool {
        &&& xs.len() == vs.len()
        &&& clock.len() == vs.len()
        &&& forall|i: int|
            0 <= i < xs.len() ==> {
                let s = #[trigger] self.trace(vs.take(i), clock.take(i));
                !s.is_done_spec() && s.folds(xs[i].0, xs[i].1, Some(vs[i]))
            }
    }

    /// What the input at position `i` of such a run emits.
    pub open spec fn emitted(self, vs: Seq<A>, clock: Seq<u64>, i: int) -> Option<Emission<A>> {
        self.trace(vs.take(i), clock.take(i)).emission(vs[i], clock[i])
    }

    /// Two states that agree on everything but their timing.
    pub open spec fn same_values(self, other: Self) -> bool {
        &&& self.inner_loop_bound == other.inner_loop_bound
        &&& self.outer_loop_bound == other.outer_loop_bound
        &&& self.group == other.group
        &&& self.step == other.step
        &&& self.acc == other.acc
    }
}

proof fn lemma_matvecprod_trace_values<A: Arith>(
    s: MatVecProd<A>,
    vs: Seq<A>,
    c1: Seq<u64>,
    c2: Seq<u64>,
)
    requires
        c1.len() == vs.len(),
        c2.len() == vs.len(),
    ensures
        s.trace(vs, c1).same_values(s.trace(vs, c2)),
    decreases vs.len(),
{
    if vs.len() > 0 {
        lemma_matvecprod_trace_values(s, vs.drop_last(), c1.drop_last(), c2.drop_last());
    }
}

proof fn lemma_matvecprod_same_prefix<A: Arith>(
    s: MatVecProd<A>,
    xs: Seq<(A, A)>,
    vs1: Seq<A>,
    c1: Seq<u64>,
    vs2: Seq<A>,
    c2: Seq<u64>,
    k: int,
)
    requires
        arithmetic_is_functional::<A>(),
        s.runs(xs, vs1, c1),
        s.runs(xs, vs2, c2),
        0 <= k <= xs.len(),
    ensures
        vs1.take(k) == vs2.take(k),
    decreases k,
{
    if k > 0 {
        let j = k - 1;
        lemma_matvecprod_same_prefix(s, xs, vs1, c1, vs2, c2, j);
        let t1 = s.trace(vs1.take(j), c1.take(j));
        let t2 = s.trace(vs2.take(j), c2.take(j));
        lemma_matvecprod_trace_values(s, vs1.take(j), c1.take(j), c2.take(j));
        let (a, b) = xs[j];
        assert(t1.folds(a, b, Some(vs1[j])));
        assert(t2.folds(a, b, Some(vs2[j])));
        if t1.step != 0 {
            lemma_accumulates_functional(t1.acc.unwrap(), a, b, Some(vs1[j]), Some(vs2[j]));
        }
        assert(vs1[j] == vs2[j]);
        assert(vs1.take(k) =~= vs1.take(j).push(vs1[j]));
        assert(vs2.take(k) =~= vs2.take(j).push(vs2[j]));
    }
}

/// Channel capacities only change when an actor's inputs arrive, never what
/// it emits: two runs of an accumulation over the same inputs, at any two
/// sequences of logical times, have the same outcomes and emit the same
/// values at the same positions, where the element type's operations are
/// functions.
pub proof fn lemma_matvecprod_outputs_independent_of_clock<A: Arith>(
    s: MatVecProd<A>,
    xs: Seq<(A, A)>,
    vs1: Seq<A>,
    c1: Seq<u64>,
    vs2: Seq<A>,
    c2: Seq<u64>,
)
    requires
        s.wf(),
        arithmetic_is_functional::<A>(),
        s.runs(xs, vs1, c1),
        s.runs(xs, vs2, c2),
    ensures
        vs1 == vs2,
        forall|i: int|
            0 <= i < xs.len() ==> (#[trigger] s.emitted(vs1, c1, i) is Some) == s.emitted(
                vs2,
                c2,
                i,
            ) is Some,
        forall|i: int|
            0 <= i < xs.len() && #[trigger] s.emitted(vs1, c1, i) is Some ==> s.emitted(
                vs1,
                c1,
                i,
            ).unwrap().value == s.emitted(vs2, c2, i).unwrap().value,
{
    lemma_matvecprod_same_prefix(s, xs, vs1, c1, vs2, c2, xs.len() as int);
    assert(vs1 =~= vs1.take(xs.len() as int));
    assert(vs2 =~= vs2.take(xs.len() as int));
    assert forall|i: int| 0 <= i < xs.len() implies (#[trigger] s.emitted(vs1, c1, i) is Some)
        == s.emitted(vs2, c2, i) is Some && (s.emitted(vs1, c1, i) is Some ==> s.emitted(
        vs1,
        c1,
        i,
    ).unwrap().value == s.emitted(vs2, c2, i).unwrap().value) by {
        lemma_matvecprod_trace_values(s, vs1.take(i), c1.take(i), c2.take(i));
    }
}

} // verus!
