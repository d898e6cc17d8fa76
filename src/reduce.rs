//! The reduction actor, and what holds of its runs.
use vstd::prelude::*;
use crate::ActorError;
use crate::scalar::{
    applies, arithmetic_is_functional, max_is_functional, maxes, Arith, BinaryOpType, MinMax,
};
use crate::timing::{Emission, Pacer};

verus! {

/// The fold operator of a reduction.
#[derive(Clone, Copy, Debug, PartialEq, Eq, Structural)]
pub enum ReduceOpType {
    Max,
    Sum,
}

/// `r` is what folding `x` into the running value `acc` may give: the maximum
/// of the two, or their sum (`None` where the sum fails).
pub open spec fn combines<A: MinMax + Arith>(op: ReduceOpType, acc: A, x: A, r: Option<A>) -> bool {
    match op {
        ReduceOpType::Max => r is Some && maxes(acc, x, r.unwrap()),
        ReduceOpType::Sum => applies(BinaryOpType::Add, acc, x, r),
    }
}

/// Reduction actor: folds each group of `inner_loop_bound` elements, left to
/// right and seeded with the group's first element, into one value, emitted
/// when the group's last element has been consumed.
pub struct ReduceOp<A> {
    pub pacer: Pacer,
    pub inner_loop_bound: u64,
    pub outer_loop_bound: u64,
    pub op: ReduceOpType,
    /// Groups completed so far.
    pub group: u64,
    /// Elements of the current group consumed so far.
    pub step: u64,
    /// The running value of the current group; meaningful once `step > 0`.
    pub acc: Option<A>,
}

impl<A: MinMax + Arith> ReduceOp<A> {
    pub open spec fn wf(self) -> bool {
        &&& self.inner_loop_bound >= 1
        &&& self.group <= self.outer_loop_bound
        &&& self.step < self.inner_loop_bound
        &&& self.group == self.outer_loop_bound ==> self.step == 0
        &&& self.step > 0 ==> self.acc is Some
    }

    pub open spec fn is_done_spec(self) -> bool {
        self.group >= self.outer_loop_bound
    }

    /// `v` is what consuming `x` may make of the running value.
    pub open spec fn folds(self, x: A, v: Option<A>) -> bool {
        if self.step == 0 {
            v == Some(x)
        } else {
            combines(self.op, self.acc.unwrap(), x, v)
        }
    }

    pub open spec fn ends_group(self) -> bool {
        self.step + 1 == self.inner_loop_bound
    }

    /// The state after consuming, at `now`, an element that made the running value `v`.
    pub open spec fn after(self, v: A, now: u64) -> Self {
        ReduceOp {
            pacer: self.pacer.issued(now),
            group: if self.ends_group() { (self.group + 1) as u64 } else { self.group },
            step: if self.ends_group() { 0 } else { (self.step + 1) as u64 },
            acc: Some(v),
            ..self
        }
    }

    /// What consuming, at `now`, an element that made the running value `v` emits.
    pub open spec fn emission(self, v: A, now: u64) -> Option<Emission<A>> {
        if self.ends_group() {
            Some(Emission { value: v, ready_time: self.pacer.ready_time(now) })
        } else {
            None
        }
    }

    pub fn new(
        latency: u64,
        init_interval: u64,
        inner_loop_bound: u64,
        outer_loop_bound: u64,
        op: ReduceOpType,
    ) -> (r: Self)
        requires
            inner_loop_bound >= 1,
        ensures
            r.wf(),
            r.pacer == (Pacer { latency, init_interval, next_issue: 0 }),
            r.inner_loop_bound == inner_loop_bound,
            r.outer_loop_bound == outer_loop_bound,
            r.op == op,
            r.group == 0,
            r.step == 0,
    {
        ReduceOp {
            pacer: Pacer::new(latency, init_interval),
            inner_loop_bound,
            outer_loop_bound,
            op,
            group: 0,
            step: 0,
            acc: None,
        }
    }

    pub fn is_done(&self) -> (r: bool)
        ensures
            r == self.is_done_spec(),
    {
        self.group >= self.outer_loop_bound
    }

    /// Consumes the next element `x` at logical time `now`. At the end of a
    /// group the folded value is emitted. A failed sum is a domain error and
    /// leaves the actor as it was.
    pub fn consume(&mut self, x: A, now: u64) -> (r: Result<Option<Emission<A>>, ActorError>)
        requires
            old(self).wf(),
            !old(self).is_done_spec(),
        ensures
            final(self).wf(),
            match r {
                Ok(e) => {
                    &&& final(self).acc is Some
                    &&& old(self).folds(x, final(self).acc)
                    &&& *final(self) == old(self).after(final(self).acc.unwrap(), now)
                    &&& e == old(self).emission(final(self).acc.unwrap(), now)
                },
                Err(err) => {
                    &&& err == ActorError::DomainError
                    &&& old(self).folds(x, None)
                    &&& *final(self) == *old(self)
                },
            },
    {
        let v = if self.step == 0 {
            x
        } else {
            let acc = self.acc.unwrap();
            match self.op {
                ReduceOpType::Max => acc.get_max(x),
                ReduceOpType::Sum => match A::apply(BinaryOpType::Add, acc, x) {
                    Some(s) => s,
                    None => {
                        return Err(ActorError::DomainError);
                    },
                },
            }
        };
        let ready = self.pacer.issue(now);
        self.acc = Some(v);
        if self.step + 1 == self.inner_loop_bound {
            self.step = 0;
            self.group = self.group + 1;
            Ok(Some(Emission { value: v, ready_time: ready }))
        } else {
            self.step = self.step + 1;
            Ok(None)
        }
    }

    /// The input stream has ended: a protocol violation unless every group is complete.
    pub fn input_ended(&self) -> (r: Result<(), ActorError>)
        ensures
            r is Ok <==> self.is_done_spec(),
            r is Err ==> r == Err::<(), ActorError>(ActorError::ProtocolViolation),
    {
        if self.group >= self.outer_loop_bound {
            Ok(())
        } else {
            Err(ActorError::ProtocolViolation)
        }
    }
}

impl<A: MinMax + Arith> ReduceOp<A> {
    /// The state after consuming elements that made the running values `vs`,
    /// at the logical times `clock`.
    pub open spec fn trace(self, vs: Seq<A>, clock: Seq<u64>) -> Self
        decreases vs.len(),
    {
        if vs.len() == 0 {
            self
        } else {
            self.trace(vs.drop_last(), clock.drop_last()).after(vs.last(), clock.last())
        }
    }

    /// Consuming `xs` one by one at the logical times `clock` may make the
    /// running values `vs`, without a domain error.
    pub open spec fn runs(self, xs: Seq<A>, vs: Seq<A>, clock: Seq<u64>) -> bool {
        &&& xs.len() == vs.len()
        &&& clock.len() == vs.len()
        &&& forall|i: int|
            0 <= i < xs.len() ==> {
                let s = #[trigger] self.trace(vs.take(i), clock.take(i));
                !s.is_done_spec() && s.folds(xs[i], Some(vs[i]))
            }
    }

    /// What the element at position `i` of such a run emits.
    pub open spec fn emitted(self, vs: Seq<A>, clock: Seq<u64>, i: int) -> Option<Emission<A>> {
        self.trace(vs.take(i), clock.take(i)).emission(vs[i], clock[i])
    }

    /// Two states that agree on everything but their timing.
    pub open spec fn same_values(self, other: Self) -> bool {
        &&& self.inner_loop_bound == other.inner_loop_bound
        &&& self.outer_loop_bound == other.outer_loop_bound
        &&& self.op == other.op
        &&& self.group == other.group
        &&& self.step == other.step
        &&& self.acc == other.acc
    }
}

proof fn lemma_reduceop_trace_values<A: MinMax + Arith>(
    s: ReduceOp<A>,
    vs: Seq<A>,
    c1: Seq<u64>,
    c2: Seq<u64>,
)
    requires
        c1.len() == vs.len(),
        c2.len() == vs.len(),
    ensures
        s.trace(vs, c1).same_values(s.trace(vs, c2)),
    decreases vs.len(),
{
    if vs.len() > 0 {
        lemma_reduceop_trace_values(s, vs.drop_last(), c1.drop_last(), c2.drop_last());
    }
}

proof fn lemma_reduceop_same_prefix<A: MinMax + Arith>(
    s: ReduceOp<A>,
    xs: Seq<A>,
    vs1: Seq<A>,
    c1: Seq<u64>,
    vs2: Seq<A>,
    c2: Seq<u64>,
    k: int,
)
    requires
        max_is_functional::<A>(),
        arithmetic_is_functional::<A>(),
        s.runs(xs, vs1, c1),
        s.runs(xs, vs2, c2),
        0 <= k <= xs.len(),
    ensures
        vs1.take(k) == vs2.take(k),
    decreases k,
{
    if k > 0 {
        let j = k - 1;
        lemma_reduceop_same_prefix(s, xs, vs1, c1, vs2, c2, j);
        let t1 = s.trace(vs1.take(j), c1.take(j));
        let t2 = s.trace(vs2.take(j), c2.take(j));
        lemma_reduceop_trace_values(s, vs1.take(j), c1.take(j), c2.take(j));
        assert(t1.folds(xs[j], Some(vs1[j])));
        assert(t2.folds(xs[j], Some(vs2[j])));
        if t1.step != 0 {
            assert(combines(t1.op, t1.acc.unwrap(), xs[j], Some(vs1[j])));
            assert(combines(t1.op, t1.acc.unwrap(), xs[j], Some(vs2[j])));
        }
        assert(vs1[j] == vs2[j]);
        assert(vs1.take(k) =~= vs1.take(j).push(vs1[j]));
        assert(vs2.take(k) =~= vs2.take(j).push(vs2[j]));
    }
}

/// Channel capacities only change when an actor's inputs arrive, never what
/// it emits: two runs of a reduction over the same elements, at any two
/// sequences of logical times, make the same running values and emit the
/// same values at the same positions, where the element type's maximum and
/// arithmetic are functions.
pub proof fn lemma_reduceop_outputs_independent_of_clock<A: MinMax + Arith>(
    s: ReduceOp<A>,
    xs: Seq<A>,
    vs1: Seq<A>,
    c1: Seq<u64>,
    vs2: Seq<A>,
    c2: Seq<u64>,
)
    requires
        s.wf(),
        max_is_functional::<A>(),
        arithmetic_is_functional::<A>(),
        s.runs(xs, vs1, c1),
        s.runs(xs, vs2, c2),
    ensures
        vs1 == vs2,
        forall|i: int|
            0 <= i < xs.len() ==> (#[trigger] s.emitted(vs1, c1, i) is Some) == s.emitted(
                vs2,
                c2,
                i,
            ) is Some,
        forall|i: int|
            0 <= i < xs.len() && #[trigger] s.emitted(vs1, c1, i) is Some ==> s.emitted(
                vs1,
                c1,
                i,
            ).unwrap().value == s.emitted(vs2, c2, i).unwrap().value,
{
    lemma_reduceop_same_prefix(s, xs, vs1, c1, vs2, c2, xs.len() as int);
    assert(vs1 =~= vs1.take(xs.len() as int));
    assert(vs2 =~= vs2.take(xs.len() as int));
    assert forall|i: int| 0 <= i < xs.len() implies (#[trigger] s.emitted(vs1, c1, i) is Some)
        == s.emitted(vs2, c2, i) is Some && (s.emitted(vs1, c1, i) is Some ==> s.emitted(
        vs1,
        c1,
        i,
    ).unwrap().value == s.emitted(vs2, c2, i).unwrap().value) by {
        lemma_reduceop_trace_values(s, vs1.take(i), c1.take(i), c2.take(i));
    }
}

/// A reduction over groups of one element passes each element through
/// unchanged, whichever the fold operator.
pub proof fn lemma_single_element_groups_pass_through<A: MinMax + Arith>(
    s: ReduceOp<A>,
    x: A,
    v: Option<A>,
    now: u64,
)
    requires
        s.wf(),
        !s.is_done_spec(),
        s.inner_loop_bound == 1,
        s.folds(x, v),
    ensures
        v == Some(x),
        s.emission(x, now) == Some(Emission { value: x, ready_time: s.pacer.ready_time(now) }),
{
}

} // verus!
