//! The three actors of the online-softmax recurrence: running max, running
//! weighted sum and running weighted outer product.
use vstd::prelude::*;
use crate::ActorError;
use crate::scalar::{
    accumulates, applies, applies_then, apply_then, arithmetic_is_functional, exp_difference,
    exp_is_functional, exp_of_difference, lemma_accumulates_functional,
    lemma_applies_then_functional, lemma_exp_of_difference_functional, max_is_functional, maxes,
    multiply_accumulate, Arith, BinaryOpType, Exp, MinMax,
};
use crate::timing::{Emission, Pacer};

verus! {

/// The pair of rescaling factors that the running-max actor emits per element,
/// both visible from `ready_time` on.
#[derive(Clone, Copy, Debug, PartialEq, Eq)]
pub struct Rescale<A> {
    /// `exp(old_max - new_max)`: rescales the mass accumulated so far.
    pub delta: A,
    /// `exp(x - new_max)`: the rescaled contribution of the new element.
    pub curr: A,
    pub ready_time: u64,
}

/// Running-max actor, first step of the online softmax. Per group it keeps a
/// running maximum, reseeded with the most negative value; per element `x`
/// it emits `delta = exp(max - new_max)` and `curr = exp(x - new_max)`.
pub struct IncrMax<A> {
    pub pacer: Pacer,
    pub inner_loop_bound: u64,
    pub outer_loop_bound: u64,
    /// The identity of the max fold, which reseeds each group.
    pub lowest: A,
    /// Groups completed so far.
    pub group: u64,
    /// Elements of the current group consumed so far.
    pub step: u64,
    /// The running maximum of the current group; meaningful once `step > 0`.
    pub running: A,
}

impl<A: MinMax + Arith + Exp> IncrMax<A> {
    pub open spec fn wf(self) -> bool {
        &&& self.inner_loop_bound >= 1
        &&& self.group <= self.outer_loop_bound
        &&& self.step < self.inner_loop_bound
        &&& self.group == self.outer_loop_bound ==> self.step == 0
    }

    pub open spec fn is_done_spec(self) -> bool {
        self.group >= self.outer_loop_bound
    }

    /// The running maximum before the next element: the seed at a group start.
    pub open spec fn prior(self) -> A {
        if self.step == 0 {
            self.lowest
        } else {
            self.running
        }
    }

    pub open spec fn ends_group(self) -> bool {
        self.step + 1 == self.inner_loop_bound
    }

    /// Consuming `x` may make the maximum `m` and the factors `delta` and `curr`.
    pub open spec fn rescales(self, x: A, m: A, delta: A, curr: A) -> bool {
        &&& maxes(self.prior(), x, m)
        &&& exp_of_difference(self.prior(), m, Some(delta))
        &&& exp_of_difference(x, m, Some(curr))
    }

    /// The state after consuming, at `now`, an element that made the maximum `m`.
    pub open spec fn after(self, m: A, now: u64) -> Self {
        IncrMax {
            pacer: self.pacer.issued(now),
            group: if self.ends_group() { (self.group + 1) as u64 } else { self.group },
            step: if self.ends_group() { 0 } else { (self.step + 1) as u64 },
            running: m,
            ..self
        }
    }

    pub fn new(latency: u64, init_interval: u64, inner_loop_bound: u64, outer_loop_bound: u64) -> (r:
        Self)
        requires
            inner_loop_bound >= 1,
        ensures
            r.wf(),
            r.pacer == (Pacer { latency, init_interval, next_issue: 0 }),
            r.inner_loop_bound == inner_loop_bound,
            r.outer_loop_bound == outer_loop_bound,
            call_ensures(A::get_min_val, (), r.lowest),
            r.group == 0,
            r.step == 0,
    {
        let lowest = A::get_min_val();
        IncrMax {
            pacer: Pacer::new(latency, init_interval),
            inner_loop_bound,
            outer_loop_bound,
            lowest,
            group: 0,
            step: 0,
            running: lowest,
        }
    }

    pub fn is_done(&self) -> (r: bool)
        ensures
            r == self.is_done_spec(),
    {
        self.group >= self.outer_loop_bound
    }

    /// Consumes the next element `x` at logical time `now` and emits its two
    /// rescaling factors. A failed exponential is a domain error and leaves
    /// the actor as it was.
    pub fn consume(&mut self, x: A, now: u64) -> (r: Result<Rescale<A>, ActorError>)
        requires
            old(self).wf(),
            !old(self).is_done_spec(),
        ensures
            final(self).wf(),
            match r {
                Ok(e) => {
                    &&& old(self).rescales(x, final(self).running, e.delta, e.curr)
                    &&& e.ready_time == old(self).pacer.ready_time(now)
                    &&& *final(self) == old(self).after(final(self).running, now)
                },
                Err(err) => {
                    &&& err == ActorError::DomainError
                    &&& exists|m: A|
                        #[trigger] maxes(old(self).prior(), x, m) && (exp_of_difference(
                            old(self).prior(),
                            m,
                            None,
                        ) || exp_of_difference(x, m, None))
                    &&& *final(self) == *old(self)
                },
            },
    {
        let prior = if self.step == 0 {
            self.lowest
        } else {
            self.running
        };
        let m = prior.get_max(x);
        assert(maxes(prior, x, m));
        let delta = match exp_difference(prior, m) {
            Some(d) => d,
            None => {
                assert(prior == self.prior());
                assert(exp_of_difference(prior, m, None));
                return Err(ActorError::DomainError);
            },
        };
        let curr = match exp_difference(x, m) {
            Some(c) => c,
            None => {
                assert(prior == self.prior());
                assert(exp_of_difference(x, m, None));
                return Err(ActorError::DomainError);
            },
        };
        let ready = self.pacer.issue(now);
        self.running = m;
        if self.step + 1 == self.inner_loop_bound {
            self.step = 0;
            self.group = self.group + 1;
        } else {
            self.step = self.step + 1;
        }
        Ok(Rescale { delta, curr, ready_time: ready })
    }

    /// The input stream has ended: a protocol violation unless every group is complete.
    pub fn input_ended(&self) -> (r: Result<(), ActorError>)
        ensures
            r is Ok <==> self.is_done_spec(),
            r is Err ==> r == Err::<(), ActorError>(ActorError::ProtocolViolation),
    {
        if self.group >= self.outer_loop_bound {
            Ok(())
        } else {
            Err(ActorError::ProtocolViolation)
        }
    }
}

/// Running-weighted-sum actor, second step of the online softmax. Per group
/// `sum <- sum * delta + curr`, reseeded with zero; only the group's final
/// sum, the row's softmax denominator, is emitted.
pub struct IncrSum<A> {
    pub pacer: Pacer,
    pub inner_loop_bound: u64,
    pub outer_loop_bound: u64,
    /// The identity of the sum fold, which reseeds each group.
    pub zero: A,
    /// Groups completed so far.
    pub group: u64,
    /// Pairs of the current group consumed so far.
    pub step: u64,
    /// The running sum of the current group; meaningful once `step > 0`.
    pub running: A,
}

impl<A: MinMax + Arith> IncrSum<A> {
    pub open spec fn wf(self) -> bool {
        &&& self.inner_loop_bound >= 1
        &&& self.group <= self.outer_loop_bound
        &&& self.step < self.inner_loop_bound
        &&& self.group == self.outer_loop_bound ==> self.step == 0
    }

    pub open spec fn is_done_spec(self) -> bool {
        self.group >= self.outer_loop_bound
    }

    /// The running sum before the next pair: the seed at a group start.
    pub open spec fn prior(self) -> A {
        if self.step == 0 {
            self.zero
        } else {
            self.running
        }
    }

    pub open spec fn ends_group(self) -> bool {
        self.step + 1 == self.inner_loop_bound
    }

    /// `v` is what consuming the pair `(delta, curr)` may make of the running sum.
    pub open spec fn folds(self, delta: A, curr: A, v: Option<A>) -> bool {
        applies_then(BinaryOpType::Mul, self.prior(), delta, BinaryOpType::Add, curr, v)
    }

    /// The state after consuming, at `now`, a pair that made the running sum `v`.
    pub open spec fn after(self, v: A, now: u64) -> Self {
        IncrSum {
            pacer: self.pacer.issued(now),
            group: if self.ends_group() { (self.group + 1) as u64 } else { self.group },
            step: if self.ends_group() { 0 } else { (self.step + 1) as u64 },
            running: v,
            ..self
        }
    }

    /// What consuming, at `now`, a pair that made the running sum `v` emits.
    pub open spec fn emission(self, v: A, now: u64) -> Option<Emission<A>> {
        if self.ends_group() {
            Some(Emission { value: v, ready_time: self.pacer.ready_time(now) })
        } else {
            None
        }
    }

    pub fn new(latency: u64, init_interval: u64, inner_loop_bound: u64, outer_loop_bound: u64) -> (r:
        Self)
        requires
            inner_loop_bound >= 1,
        ensures
            r.wf(),
            r.pacer == (Pacer { latency, init_interval, next_issue: 0 }),
            r.inner_loop_bound == inner_loop_bound,
            r.outer_loop_bound == outer_loop_bound,
            call_ensures(A::get_zero, (), r.zero),
            r.group == 0,
            r.step == 0,
    {
        let zero = A::get_zero();
        IncrSum {
            pacer: Pacer::new(latency, init_interval),
            inner_loop_bound,
            outer_loop_bound,
            zero,
            group: 0,
            step: 0,
            running: zero,
        }
    }

    pub fn is_done(&self) -> (r: bool)
        ensures
            r == self.is_done_spec(),
    {
        self.group >= self.outer_loop_bound
    }

    /// Consumes the next pair `(delta, curr)` at logical time `now`; at the
    /// end of a group the sum is emitted. A failed operation is a domain error
    /// and leaves the actor as it was.
    pub fn consume(&mut self, delta: A, curr: A, now: u64) -> (r: Result<
        Option<Emission<A>>,
        ActorError,
    >)
        requires
            old(self).wf(),
            !old(self).is_done_spec(),
        ensures
            final(self).wf(),
            match r {
                Ok(e) => {
                    &&& old(self).folds(delta, curr, Some(final(self).running))
                    &&& *final(self) == old(self).after(final(self).running, now)
                    &&& e == old(self).emission(final(self).running, now)
                },
                Err(err) => {
                    &&& err == ActorError::DomainError
                    &&& old(self).folds(delta, curr, None)
                    &&& *final(self) == *old(self)
                },
            },
    {
        let prior = if self.step == 0 {
            self.zero
        } else {
            self.running
        };
        let v = match apply_then(BinaryOpType::Mul, prior, delta, BinaryOpType::Add, curr) {
            Some(v) => v,
            None => {
                return Err(ActorError::DomainError);
            },
        };
        let ready = self.pacer.issue(now);
        self.running = v;
        if self.step + 1 == self.inner_loop_bound {
            self.step = 0;
            self.group = self.group + 1;
            Ok(Some(Emission { value: v, ready_time: ready }))
        } else {
            self.step = self.step + 1;
            Ok(None)
        }
    }

    /// An input stream has ended: a protocol violation unless every group is complete.
    pub fn input_ended(&self) -> (r: Result<(), ActorError>)
        ensures
            r is Ok <==> self.is_done_spec(),
            r is Err ==> r == Err::<(), ActorError>(ActorError::ProtocolViolation),
    {
        if self.group >= self.outer_loop_bound {
            Ok(())
        } else {
            Err(ActorError::ProtocolViolation)
        }
    }
}

/// `r` is `acc * delta + curr * v`, or `None` where a step fails.
pub open spec fn rescales_and_accumulates<A: Arith>(acc: A, delta: A, curr: A, v: A, r: Option<A>) -> bool {
    ||| applies(BinaryOpType::Mul, acc, delta, None) && r is None
    ||| exists|t: A| #[trigger] applies(BinaryOpType::Mul, acc, delta, Some(t)) && accumulates(t, curr, v, r)
}

/// Running-weighted-outer-product actor, third step of the online softmax.
/// Per group `acc <- acc * delta + curr * v`, reseeded with zero; only the
/// group's final value, the row's softmax numerator, is emitted.
pub struct IncrOutP<A> {
    pub pacer: Pacer,
    pub inner_loop_bound: u64,
    pub outer_loop_bound: u64,
    /// The identity of the sum fold, which reseeds each group.
    pub zero: A,
    /// Groups completed so far.
    pub group: u64,
    /// Triples of the current group consumed so far.
    pub step: u64,
    /// The running value of the current group; meaningful once `step > 0`.
    pub running: A,
}

impl<A: MinMax + Arith> IncrOutP<A> {
    pub open spec fn wf(self) -> bool {
        &&& self.inner_loop_bound >= 1
        &&& self.group <= self.outer_loop_bound
        &&& self.step < self.inner_loop_bound
        &&& self.group == self.outer_loop_bound ==> self.step == 0
    }

    pub open spec fn is_done_spec(self) -> bool {
        self.group >= self.outer_loop_bound
    }

    /// The running value before the next triple: the seed at a group start.
    pub open spec fn prior(self) -> A {
        if self.step == 0 {
            self.zero
        } else {
            self.running
        }
    }

    pub open spec fn ends_group(self) -> bool {
        self.step + 1 == self.inner_loop_bound
    }

    /// `r` is what consuming the triple `(delta, curr, v)` may make of the running value.
    pub open spec fn folds(self, delta: A, curr: A, v: A, r: Option<A>) -> bool {
        rescales_and_accumulates(self.prior(), delta, curr, v, r)
    }

    /// The state after consuming, at `now`, a triple that made the running value `v`.
    pub open spec fn after(self, v: A, now: u64) -> Self {
        IncrOutP {
            pacer: self.pacer.issued(now),
            group: if self.ends_group() { (self.group + 1) as u64 } else { self.group },
            step: if self.ends_group() { 0 } else { (self.step + 1) as u64 },
            running: v,
            ..self
        }
    }

    /// What consuming, at `now`, a triple that made the running value `v` emits.
    pub open spec fn emission(self, v: A, now: u64) -> Option<Emission<A>> {
        if self.ends_group() {
            Some(Emission { value: v, ready_time: self.pacer.ready_time(now) })
        } else {
            None
        }
    }

    pub fn new(latency: u64, init_interval: u64, inner_loop_bound: u64, outer_loop_bound: u64) -> (r:
        Self)
        requires
            inner_loop_bound >= 1,
        ensures
            r.wf(),
            r.pacer == (Pacer { latency, init_interval, next_issue: 0 }),
            r.inner_loop_bound == inner_loop_bound,
            r.outer_loop_bound == outer_loop_bound,
            call_ensures(A::get_zero, (), r.zero),
            r.group == 0,
            r.step == 0,
    {
        let zero = A::get_zero();
        IncrOutP {
            pacer: Pacer::new(latency, init_interval),
            inner_loop_bound,
            outer_loop_bound,
            zero,
            group: 0,
            step: 0,
            running: zero,
        }
    }

    pub fn is_done(&self) -> (r: bool)
        ensures
            r == self.is_done_spec(),
    {
        self.group >= self.outer_loop_bound
    }

    /// Consumes the next triple `(delta, curr, v)` at logical time `now`; at
    /// the end of a group the accumulated value is emitted. A failed operation
    /// is a domain error and leaves the actor as it was.
    pub fn consume(&mut self, delta: A, curr: A, v: A, now: u64) -> (r: Result<
        Option<Emission<A>>,
        ActorError,
    >)
        requires
            old(self).wf(),
            !old(self).is_done_spec(),
        ensures
            final(self).wf(),
            match r {
                Ok(e) => {
                    &&& old(self).folds(delta, curr, v, Some(final(self).running))
                    &&& *final(self) == old(self).after(final(self).running, now)
                    &&& e == old(self).emission(final(self).running, now)
                },
                Err(err) => {
                    &&& err == ActorError::DomainError
                    &&& old(self).folds(delta, curr, v, None)
                    &&& *final(self) == *old(self)
                },
            },
    {
        let prior = if self.step == 0 {
            self.zero
        } else {
            self.running
        };
        let next = match A::apply(BinaryOpType::Mul, prior, delta) {
            None => None,
            Some(t) => {
                let r = multiply_accumulate(t, curr, v);
                assert(applies(BinaryOpType::Mul, prior, delta, Some(t)));
                r
            },
        };
        let acc = match next {
            Some(a) => a,
            None => {
                return Err(ActorError::DomainError);
            },
        };
        let ready = self.pacer.issue(now);
        self.running = acc;
        if self.step + 1 == self.inner_loop_bound {
            self.step = 0;
            self.group = self.group + 1;
            Ok(Some(Emission { value: acc, ready_time: ready }))
        } else {
            self.step = self.step + 1;
            Ok(None)
        }
    }

    /// An input stream has ended: a protocol violation unless every group is complete.
    pub fn input_ended(&self) -> (r: Result<(), ActorError>)
        ensures
            r is Ok <==> self.is_done_spec(),
            r is Err ==> r == Err::<(), ActorError>(ActorError::ProtocolViolation),
    {
        if self.group >= self.outer_loop_bound {
            Ok(())
        } else {
            Err(ActorError::ProtocolViolation)
        }
    }
}

impl<A: MinMax + Arith + Exp> IncrMax<A> {
    /// The state after consuming inputs whose outcomes were `vs`, at the
    /// logical times `clock`.
    pub open spec fn trace(self, vs: Seq<(A, A, A)>, clock: Seq<u64>) -> Self
        decreases vs.len(),
    {
        if vs.len() == 0 {
            self
        } else {
            self.trace(vs.drop_last(), clock.drop_last()).after(vs.last().0, clock.last())
        }
    }

    /// Consuming `xs` one by one at the logical times `clock` may have the
    /// outcomes `vs`, without a domain error.
    pub open spec fn runs(self, xs: Seq<A>, vs: Seq<(A, A, A)>, clock: Seq<u64>) -> bool {
        &&& xs.len() == vs.len()
        &&& clock.len() == vs.len()
        &&& forall|i: int|
            0 <= i < xs.len() ==> {
                let s = #[trigger] self.trace(vs.take(i), clock.take(i));
                !s.is_done_spec() && s.rescales(xs[i], vs[i].0, vs[i].1, vs[i].2)
            }
    }

    /// What the input at position `i` of such a run emits.
    pub open spec fn emitted(self, vs: Seq<(A, A, A)>, clock: Seq<u64>, i: int) -> Rescale<A> {
        Rescale {
            delta: vs[i].1,
            curr: vs[i].2,
            ready_time: self.trace(vs.take(i), clock.take(i)).pacer.ready_time(clock[i]),
        }
    }

    /// Two states that agree on everything but their timing.
    pub open spec fn same_values(self, other: Self) -> bool {
        &&& self.inner_loop_bound == other.inner_loop_bound
        &&& self.outer_loop_bound == other.outer_loop_bound
        &&& self.lowest == other.lowest
        &&& self.group == other.group
        &&& self.step == other.step
        &&& self.running == other.running
    }
}

proof fn lemma_incrmax_trace_values<A: MinMax + Arith + Exp>(
    s: IncrMax<A>,
    vs: Seq<(A, A, A)>,
    c1: Seq<u64>,
    c2: Seq<u64>,
)
    requires
        c1.len() == vs.len(),
        c2.len() == vs.len(),
    ensures
        s.trace(vs, c1).same_values(s.trace(vs, c2)),
    decreases vs.len(),
{
    if vs.len() > 0 {
        lemma_incrmax_trace_values(s, vs.drop_last(), c1.drop_last(), c2.drop_last());
    }
}

proof fn lemma_incrmax_same_prefix<A: MinMax + Arith + Exp>(
    s: IncrMax<A>,
    xs: Seq<A>,
    vs1: Seq<(A, A, A)>,
    c1: Seq<u64>,
    vs2: Seq<(A, A, A)>,
    c2: Seq<u64>,
    k: int,
)
    requires
        max_is_functional::<A>(),
        arithmetic_is_functional::<A>(),
        exp_is_functional::<A>(),
        s.runs(xs, vs1, c1),
        s.runs(xs, vs2, c2),
        0 <= k <= xs.len(),
    ensures
        vs1.take(k) == vs2.take(k),
    decreases k,
{
    if k > 0 {
        let j = k - 1;
        lemma_incrmax_same_prefix(s, xs, vs1, c1, vs2, c2, j);
        let t1 = s.trace(vs1.take(j), c1.take(j));
        let t2 = s.trace(vs2.take(j), c2.take(j));
        lemma_incrmax_trace_values(s, vs1.take(j), c1.take(j), c2.take(j));
        let x = xs[j];
        let (m1, d1, u1) = vs1[j];
        let (m2, d2, u2) = vs2[j];
        assert(t1.rescales(x, m1, d1, u1));
        assert(t2.rescales(x, m2, d2, u2));
        assert(m1 == m2);
        lemma_exp_of_difference_functional(t1.prior(), m1, Some(d1), Some(d2));
        lemma_exp_of_difference_functional(x, m1, Some(u1), Some(u2));
        assert(vs1[j] == vs2[j]);
        assert(vs1.take(k) =~= vs1.take(j).push(vs1[j]));
        assert(vs2.take(k) =~= vs2.take(j).push(vs2[j]));
    }
}

/// Channel capacities only change when an actor's inputs arrive, never what
/// it emits: two runs of a running max over the same inputs, at any two
/// sequences of logical times, have the same outcomes and emit the same
/// values at the same positions, where the element type's operations are
/// functions.
pub proof fn lemma_incrmax_outputs_independent_of_clock<A: MinMax + Arith + Exp>(
    s: IncrMax<A>,
    xs: Seq<A>,
    vs1: Seq<(A, A, A)>,
    c1: Seq<u64>,
    vs2: Seq<(A, A, A)>,
    c2: Seq<u64>,
)
    requires
        s.wf(),
        max_is_functional::<A>(),
        arithmetic_is_functional::<A>(),
        exp_is_functional::<A>(),
        s.runs(xs, vs1, c1),
        s.runs(xs, vs2, c2),
    ensures
        vs1 == vs2,
        forall|i: int|
            0 <= i < xs.len() ==> (#[trigger] s.emitted(vs1, c1, i)).delta == s.emitted(vs2, c2, i).delta
                && s.emitted(vs1, c1, i).curr == s.emitted(vs2, c2, i).curr,
{
    lemma_incrmax_same_prefix(s, xs, vs1, c1, vs2, c2, xs.len() as int);
    assert(vs1 =~= vs1.take(xs.len() as int));
    assert(vs2 =~= vs2.take(xs.len() as int));

}

impl<A: MinMax + Arith> IncrSum<A> {
    /// The state after consuming inputs whose outcomes were `vs`, at the
    /// logical times `clock`.
    pub open spec fn trace(self, vs: Seq<A>, clock: Seq<u64>) -> Self
        decreases vs.len(),
    {
        if vs.len() == 0 {
            self
        } else {
            self.trace(vs.drop_last(), clock.drop_last()).after(vs.last(), clock.last())
        }
    }

    /// Consuming `xs` one by one at the logical times `clock` may have the
    /// outcomes `vs`, without a domain error.
    pub open spec fn runs(self, xs: Seq<(A, A)>, vs: Seq<A>, clock: Seq<u64>) -> bool {
        &&& xs.len() == vs.len()
        &&& clock.len() == vs.len()
        &&& forall|i: int|
            0 <= i < xs.len() ==> {
                let s = #[trigger] self.trace(vs.take(i), clock.take(i));
                !s.is_done_spec() && s.folds(xs[i].0, xs[i].1, Some(vs[i]))
            }
    }

    /// What the input at position `i` of such a run emits.
    pub open spec fn emitted(self, vs: Seq<A>, clock: Seq<u64>, i: int) -> Option<Emission<A>> {
        self.trace(vs.take(i), clock.take(i)).emission(vs[i], clock[i])
    }

    /// Two states that agree on everything but their timing.
    pub open spec fn same_values(self, other: Self) -> bool {
        &&& self.inner_loop_bound == other.inner_loop_bound
        &&& self.outer_loop_bound == other.outer_loop_bound
        &&& self.zero == other.zero
        &&& self.group == other.group
        &&& self.step == other.step
        &&& self.running == other.running
    }
}

proof fn lemma_incrsum_trace_values<A: MinMax + Arith>(
    s: IncrSum<A>,
    vs: Seq<A>,
    c1: Seq<u64>,
    c2: Seq<u64>,
)
    requires
        c1.len() == vs.len(),
        c2.len() == vs.len(),
    ensures
        s.trace(vs, c1).same_values(s.trace(vs, c2)),
    decreases vs.len(),
{
    if vs.len() > 0 {
        lemma_incrsum_trace_values(s, vs.drop_last(), c1.drop_last(), c2.drop_last());
    }
}

proof fn lemma_incrsum_same_prefix<A: MinMax + Arith>(
    s: IncrSum<A>,
    xs: Seq<(A, A)>,
    vs1: Seq<A>,
    c1: Seq<u64>,
    vs2: Seq<A>,
    c2: Seq<u64>,
    k: int,
)
    requires
        arithmetic_is_functional::<A>(),
        s.runs(xs, vs1, c1),
        s.runs(xs, vs2, c2),
        0 <= k <= xs.len(),
    ensures
        vs1.take(k) == vs2.take(k),
    decreases k,
{
    if k > 0 {
        let j = k - 1;
        lemma_incrsum_same_prefix(s, xs, vs1, c1, vs2, c2, j);
        let t1 = s.trace(vs1.take(j), c1.take(j));
        let t2 = s.trace(vs2.take(j), c2.take(j));
        lemma_incrsum_trace_values(s, vs1.take(j), c1.take(j), c2.take(j));
        let (d, c) = xs[j];
        assert(t1.folds(d, c, Some(vs1[j])));
        assert(t2.folds(d, c, Some(vs2[j])));
        lemma_applies_then_functional(
            BinaryOpType::Mul,
            t1.prior(),
            d,
            BinaryOpType::Add,
            c,
            Some(vs1[j]),
            Some(vs2[j]),
        );
        assert(vs1[j] == vs2[j]);
        assert(vs1.take(k) =~= vs1.take(j).push(vs1[j]));
        assert(vs2.take(k) =~= vs2.take(j).push(vs2[j]));
    }
}

/// Channel capacities only change when an actor's inputs arrive, never what
/// it emits: two runs of a running sum over the same inputs, at any two
/// sequences of logical times, have the same outcomes and emit the same
/// values at the same positions, where the element type's operations are
/// functions.
pub proof fn lemma_incrsum_outputs_independent_of_clock<A: MinMax + Arith>(
    s: IncrSum<A>,
    xs: Seq<(A, A)>,
    vs1: Seq<A>,
    c1: Seq<u64>,
    vs2: Seq<A>,
    c2: Seq<u64>,
)
    requires
        s.wf(),
        arithmetic_is_functional::<A>(),
        s.runs(xs, vs1, c1),
        s.runs(xs, vs2, c2),
    ensures
        vs1 == vs2,
        forall|i: int|
            0 <= i < xs.len() ==> (#[trigger] s.emitted(vs1, c1, i) is Some) == s.emitted(
                vs2,
                c2,
                i,
            ) is Some,
        forall|i: int|
            0 <= i < xs.len() && #[trigger] s.emitted(vs1, c1, i) is Some ==> s.emitted(
                vs1,
                c1,
                i,
            ).unwrap().value == s.emitted(vs2, c2, i).unwrap().value,
{
    lemma_incrsum_same_prefix(s, xs, vs1, c1, vs2, c2, xs.len() as int);
    assert(vs1 =~= vs1.take(xs.len() as int));
    assert(vs2 =~= vs2.take(xs.len() as int));
    assert forall|i: int| 0 <= i < xs.len() implies (#[trigger] s.emitted(vs1, c1, i) is Some)
        == s.emitted(vs2, c2, i) is Some && (s.emitted(vs1, c1, i) is Some ==> s.emitted(
        vs1,
        c1,
        i,
    ).unwrap().value == s.emitted(vs2, c2, i).unwrap().value) by {
        lemma_incrsum_trace_values(s, vs1.take(i), c1.take(i), c2.take(i));
    }
}

/// `acc * delta + curr * v` has one result under functional arithmetic.
proof fn lemma_rescales_and_accumulates_functional<A: Arith>(
    acc: A,
    delta: A,
    curr: A,
    v: A,
    r1: Option<A>,
    r2: Option<A>,
)
    requires
        arithmetic_is_functional::<A>(),
        rescales_and_accumulates(acc, delta, curr, v, r1),
        rescales_and_accumulates(acc, delta, curr, v, r2),
    ensures
        r1 == r2,
{
    if applies(BinaryOpType::Mul, acc, delta, None) {
        assert forall|t: A| !applies(BinaryOpType::Mul, acc, delta, Some(t)) by {
            if applies(BinaryOpType::Mul, acc, delta, Some(t)) {
                assert(None::<A> == Some(t));
            }
        }
    } else {
        let t1 = choose|t: A| #[trigger] applies(BinaryOpType::Mul, acc, delta, Some(t)) && accumulates(t, curr, v, r1);
        let t2 = choose|t: A| #[trigger] applies(BinaryOpType::Mul, acc, delta, Some(t)) && accumulates(t, curr, v, r2);
        assert(Some(t1) == Some(t2));
        lemma_accumulates_functional(t1, curr, v, r1, r2);
    }
}

impl<A: MinMax + Arith> IncrOutP<A> {
    /// The state after consuming inputs whose outcomes were `vs`, at the
    /// logical times `clock`.
    pub open spec fn trace(self, vs: Seq<A>, clock: Seq<u64>) -> Self
        decreases vs.len(),
    {
        if vs.len() == 0 {
            self
        } else {
            self.trace(vs.drop_last(), clock.drop_last()).after(vs.last(), clock.last())
        }
    }

    /// Consuming `xs` one by one at the logical times `clock` may have the
    /// outcomes `vs`, without a domain error.
    pub open spec fn runs(self, xs: Seq<(A, A, A)>, vs: Seq<A>, clock: Seq<u64>) -> bool {
        &&& xs.len() == vs.len()
        &&& clock.len() == vs.len()
        &&& forall|i: int|
            0 <= i < xs.len() ==> {
                let s = #[trigger] self.trace(vs.take(i), clock.take(i));
                !s.is_done_spec() && s.folds(xs[i].0, xs[i].1, xs[i].2, Some(vs[i]))
            }
    }

    /// What the input at position `i` of such a run emits.
    pub open spec fn emitted(self, vs: Seq<A>, clock: Seq<u64>, i: int) -> Option<Emission<A>> {
        self.trace(vs.take(i), clock.take(i)).emission(vs[i], clock[i])
    }

    /// Two states that agree on everything but their timing.
    pub open spec fn same_values(self, other: Self) -> bool {
        &&& self.inner_loop_bound == other.inner_loop_bound
        &&& self.outer_loop_bound == other.outer_loop_bound
        &&& self.zero == other.zero
        &&& self.group == other.group
        &&& self.step == other.step
        &&& self.running == other.running
    }
}

proof fn lemma_incroutp_trace_values<A: MinMax + Arith>(
    s: IncrOutP<A>,
    vs: Seq<A>,
    c1: Seq<u64>,
    c2: Seq<u64>,
)
    requires
        c1.len() == vs.len(),
        c2.len() == vs.len(),
    ensures
        s.trace(vs, c1).same_values(s.trace(vs, c2)),
    decreases vs.len(),
{
    if vs.len() > 0 {
        lemma_incroutp_trace_values(s, vs.drop_last(), c1.drop_last(), c2.drop_last());
    }
}

proof fn lemma_incroutp_same_prefix<A: MinMax + Arith>(
    s: IncrOutP<A>,
    xs: Seq<(A, A, A)>,
    vs1: Seq<A>,
    c1: Seq<u64>,
    vs2: Seq<A>,
    c2: Seq<u64>,
    k: int,
)
    requires
        arithmetic_is_functional::<A>(),
        s.runs(xs, vs1, c1),
        s.runs(xs, vs2, c2),
        0 <= k <= xs.len(),
    ensures
        vs1.take(k) == vs2.take(k),
    decreases k,
{
    if k > 0 {
        let j = k - 1;
        lemma_incroutp_same_prefix(s, xs, vs1, c1, vs2, c2, j);
        let t1 = s.trace(vs1.take(j), c1.take(j));
        let t2 = s.trace(vs2.take(j), c2.take(j));
        lemma_incroutp_trace_values(s, vs1.take(j), c1.take(j), c2.take(j));
        let (d, c, v) = xs[j];
        assert(t1.folds(d, c, v, Some(vs1[j])));
        assert(t2.folds(d, c, v, Some(vs2[j])));
        lemma_rescales_and_accumulates_functional(t1.prior(), d, c, v, Some(vs1[j]), Some(vs2[j]));
        assert(vs1[j] == vs2[j]);
        assert(vs1.take(k) =~= vs1.take(j).push(vs1[j]));
        assert(vs2.take(k) =~= vs2.take(j).push(vs2[j]));
    }
}

/// Channel capacities only change when an actor's inputs arrive, never what
/// it emits: two runs of a running outer product over the same inputs, at any two
/// sequences of logical times, have the same outcomes and emit the same
/// values at the same positions, where the element type's operations are
/// functions.
pub proof fn lemma_incroutp_outputs_independent_of_clock<A: MinMax + Arith>(
    s: IncrOutP<A>,
    xs: Seq<(A, A, A)>,
    vs1: Seq<A>,
    c1: Seq<u64>,
    vs2: Seq<A>,
    c2: Seq<u64>,
)
    requires
        s.wf(),
        arithmetic_is_functional::<A>(),
        s.runs(xs, vs1, c1),
        s.runs(xs, vs2, c2),
    ensures
        vs1 == vs2,
        forall|i: int|
            0 <= i < xs.len() ==> (#[trigger] s.emitted(vs1, c1, i) is Some) == s.emitted(
                vs2,
                c2,
                i,
            ) is Some,
        forall|i: int|
            0 <= i < xs.len() && #[trigger] s.emitted(vs1, c1, i) is Some ==> s.emitted(
                vs1,
                c1,
                i,
            ).unwrap().value == s.emitted(vs2, c2, i).unwrap().value,
{
    lemma_incroutp_same_prefix(s, xs, vs1, c1, vs2, c2, xs.len() as int);
    assert(vs1 =~= vs1.take(xs.len() as int));
    assert(vs2 =~= vs2.take(xs.len() as int));
    assert forall|i: int| 0 <= i < xs.len() implies (#[trigger] s.emitted(vs1, c1, i) is Some)
        == s.emitted(vs2, c2, i) is Some && (s.emitted(vs1, c1, i) is Some ==> s.emitted(
        vs1,
        c1,
        i,
    ).unwrap().value == s.emitted(vs2, c2, i).unwrap().value) by {
        lemma_incroutp_trace_values(s, vs1.take(i), c1.take(i), c2.take(i));
    }
}

} // verus!
