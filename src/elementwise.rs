//! The elementwise actors: the broadcast variant (vector op scalar) and the
//! paired variant (one for one).
use vstd::prelude::*;
use crate::ActorError;
use crate::scalar::{applies, Arith, BinaryOpType};
use crate::timing::{Emission, Pacer};

verus! {

/// Elementwise actor, broadcast variant: per group it holds one scalar of
/// operand 2, then applies `op` to each of `inner_loop_bound` elements of
/// operand 1 against it (`element op scalar`) and emits each result at once.
pub struct Binary<A> {
    pub pacer: Pacer,
    pub inner_loop_bound: u64,
    pub outer_loop_bound: u64,
    pub op: BinaryOpType,
    /// Groups completed so far.
    pub group: u64,
    /// Elements of operand 1 consumed in the current group.
    pub step: u64,
    /// The operand-2 scalar of the current group, once read.
    pub scalar: Option<A>,
}

impl<A: Arith> Binary<A> {
    pub open spec fn wf(self) -> bool {
        &&& self.inner_loop_bound >= 1
        &&& self.group <= self.outer_loop_bound
        &&& self.step < self.inner_loop_bound
        &&& self.group == self.outer_loop_bound ==> self.step == 0 && self.scalar is None
        &&& self.step > 0 ==> self.scalar is Some
    }

    pub open spec fn is_done_spec(self) -> bool {
        self.group >= self.outer_loop_bound
    }

    /// Whether the next read is of the operand-2 scalar.
    pub open spec fn needs_scalar_spec(self) -> bool {
        !self.is_done_spec() && self.scalar is None
    }

    pub open spec fn ends_group(self) -> bool {
        self.step + 1 == self.inner_loop_bound
    }

    /// The state after emitting, at `now`, the result for one element of operand 1.
    pub open spec fn after(self, now: u64) -> Self {
        Binary {
            pacer: self.pacer.issued(now),
            group: if self.ends_group() { (self.group + 1) as u64 } else { self.group },
            step: if self.ends_group() { 0 } else { (self.step + 1) as u64 },
            scalar: if self.ends_group() { None } else { self.scalar },
            ..self
        }
    }

    pub fn new(
        latency: u64,
        init_interval: u64,
        inner_loop_bound: u64,
        outer_loop_bound: u64,
        op: BinaryOpType,
    ) -> (r: Self)
        requires
            inner_loop_bound >= 1,
        ensures
            r.wf(),
            r.pacer == (Pacer { latency, init_interval, next_issue: 0 }),
            r.inner_loop_bound == inner_loop_bound,
            r.outer_loop_bound == outer_loop_bound,
            r.op == op,
            r.group == 0,
            r.step == 0,
            r.scalar is None,
    {
        Binary {
            pacer: Pacer::new(latency, init_interval),
            inner_loop_bound,
            outer_loop_bound,
            op,
            group: 0,
            step: 0,
            scalar: None,
        }
    }

    pub fn is_done(&self) -> (r: bool)
        ensures
            r == self.is_done_spec(),
    {
        self.group >= self.outer_loop_bound
    }

    pub fn needs_scalar(&self) -> (r: bool)
        ensures
            r == self.needs_scalar_spec(),
    {
        self.group < self.outer_loop_bound && self.scalar.is_none()
    }

    /// Holds `s`, the operand-2 scalar of the group that starts.
    pub fn hold_scalar(&mut self, s: A)
        requires
            old(self).wf(),
            old(self).needs_scalar_spec(),
        ensures
            final(self).wf(),
            *final(self) == (Binary { scalar: Some(s), ..*old(self) }),
    {
        self.scalar = Some(s);
    }

    /// Consumes the next element `x` of operand 1 at logical time `now` and
    /// emits `x op scalar`. A failed operation (a zero divisor) is a domain
    /// error and leaves the actor as it was.
    pub fn consume(&mut self, x: A, now: u64) -> (r: Result<Emission<A>, ActorError>)
        requires
            old(self).wf(),
            !old(self).is_done_spec(),
            old(self).scalar is Some,
        ensures
            final(self).wf(),
            match r {
                Ok(e) => {
                    &&& applies(old(self).op, x, old(self).scalar.unwrap(), Some(e.value))
                    &&& e.ready_time == old(self).pacer.ready_time(now)
                    &&& *final(self) == old(self).after(now)
                },
                Err(err) => {
                    &&& err == ActorError::DomainError
                    &&& applies(old(self).op, x, old(self).scalar.unwrap(), None)
                    &&& *final(self) == *old(self)
                },
            },
    {
        let s = self.scalar.unwrap();
        let v = match A::apply(self.op, x, s) {
            Some(v) => v,
            None => {
                return Err(ActorError::DomainError);
            },
        };
        let ready = self.pacer.issue(now);
        if self.step + 1 == self.inner_loop_bound {
            self.step = 0;
            self.group = self.group + 1;
            self.scalar = None;
        } else {
            self.step = self.step + 1;
        }
        Ok(Emission { value: v, ready_time: ready })
    }

    /// An input stream has ended: a protocol violation unless every group is complete.
    pub fn input_ended(&self) -> (r: Result<(), ActorError>)
        ensures
            r is Ok <==> self.is_done_spec(),
            r is Err ==> r == Err::<(), ActorError>(ActorError::ProtocolViolation),
    {
        if self.group >= self.outer_loop_bound {
            Ok(())
        } else {
            Err(ActorError::ProtocolViolation)
        }
    }
}

/// Elementwise actor, paired variant: takes one value from each operand per
/// step and emits `lhs op rhs`, for `loop_bound` steps, with no grouping.
pub struct BinaryOp<A> {
    pub pacer: Pacer,
    pub loop_bound: u64,
    pub op: BinaryOpType,
    /// Steps completed so far.
    pub count: u64,
    pub element: core::marker::PhantomData<A>,
}

impl<A: Arith> BinaryOp<A> {
    pub open spec fn wf(self) -> bool {
        self.count <= self.loop_bound
    }

    pub open spec fn is_done_spec(self) -> bool {
        self.count >= self.loop_bound
    }

    pub fn new(latency: u64, init_interval: u64, loop_bound: u64, op: BinaryOpType) -> (r: Self)
        ensures
            r.wf(),
            r.pacer == (Pacer { latency, init_interval, next_issue: 0 }),
            r.loop_bound == loop_bound,
            r.op == op,
            r.count == 0,
    {
        BinaryOp {
            pacer: Pacer::new(latency, init_interval),
            loop_bound,
            op,
            count: 0,
            element: core::marker::PhantomData,
        }
    }

    pub fn is_done(&self) -> (r: bool)
        ensures
            r == self.is_done_spec(),
    {
        self.count >= self.loop_bound
    }

    /// Consumes one value of each operand at logical time `now` and emits
    /// `lhs op rhs`. A failed operation (a zero divisor) is a domain error and
    /// leaves the actor as it was.
    pub fn consume(&mut self, lhs: A, rhs: A, now: u64) -> (r: Result<Emission<A>, ActorError>)
        requires
            old(self).wf(),
            !old(self).is_done_spec(),
        ensures
            final(self).wf(),
            match r {
                Ok(e) => {
                    &&& applies(old(self).op, lhs, rhs, Some(e.value))
                    &&& e.ready_time == old(self).pacer.ready_time(now)
                    &&& *final(self) == (BinaryOp {
                        pacer: old(self).pacer.issued(now),
                        count: (old(self).count + 1) as u64,
                        ..*old(self)
                    })
                },
                Err(err) => {
                    &&& err == ActorError::DomainError
                    &&& applies(old(self).op, lhs, rhs, None)
                    &&& *final(self) == *old(self)
                },
            },
    {
        let v = match A::apply(self.op, lhs, rhs) {
            Some(v) => v,
            None => {
                return Err(ActorError::DomainError);
            },
        };
        let ready = self.pacer.issue(now);
        self.count = self.count + 1;
        Ok(Emission { value: v, ready_time: ready })
    }

    /// An input stream has ended: a protocol violation unless every step is done.
    pub fn input_ended(&self) -> (r: Result<(), ActorError>)
        ensures
            r is Ok <==> self.is_done_spec(),
            r is Err ==> r == Err::<(), ActorError>(ActorError::ProtocolViolation),
    {
        if self.count >= self.loop_bound {
            Ok(())
        } else {
            Err(ActorError::ProtocolViolation)
        }
    }
}

} // verus!
