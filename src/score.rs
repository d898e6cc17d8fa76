//! The score actor: exponentiated products of query and key scalars.
use vstd::prelude::*;
use crate::ActorError;
use crate::scalar::{exp_of_product, exp_product, Arith, Exp};
use crate::timing::{Emission, Pacer};

verus! {

/// Score actor: for each of `seq_len` query scalars `q`, consumes `seq_len`
/// key scalars `kt` in row-major order and emits `exp(q * kt)` for each. The
/// caller delivers every emission to all of its broadcast targets at once.
pub struct QKTExp<A> {
    pub pacer: Pacer,
    pub seq_len: u64,
    /// Rows (query scalars) completed so far.
    pub row: u64,
    /// Keys of the current row consumed so far.
    pub col: u64,
    /// The query scalar of the current row, once read.
    pub query: Option<A>,
}

impl<A: Arith + Exp> QKTExp<A> {
    pub open spec fn wf(self) -> bool {
        &&& self.row <= self.seq_len
        &&& self.row < self.seq_len ==> self.col < self.seq_len
        &&& self.row == self.seq_len ==> self.col == 0 && self.query is None
        &&& self.col > 0 ==> self.query is Some
    }

    pub open spec fn is_done_spec(self) -> bool {
        self.row >= self.seq_len
    }

    /// Whether the next read is of a query scalar.
    pub open spec fn needs_query_spec(self) -> bool {
        !self.is_done_spec() && self.query is None
    }

    pub open spec fn ends_row(self) -> bool {
        self.col + 1 == self.seq_len
    }

    /// The state after emitting, at `now`, the score of one key.
    pub open spec fn after(self, now: u64) -> Self {
        QKTExp {
            pacer: self.pacer.issued(now),
            row: if self.ends_row() { (self.row + 1) as u64 } else { self.row },
            col: if self.ends_row() { 0 } else { (self.col + 1) as u64 },
            query: if self.ends_row() { None } else { self.query },
            ..self
        }
    }

    pub fn new(latency: u64, init_interval: u64, seq_len: u64) -> (r: Self)
        ensures
            r.wf(),
            r.pacer == (Pacer { latency, init_interval, next_issue: 0 }),
            r.seq_len == seq_len,
            r.row == 0,
            r.col == 0,
            r.query is None,
    {
        QKTExp { pacer: Pacer::new(latency, init_interval), seq_len, row: 0, col: 0, query: None }
    }

    pub fn is_done(&self) -> (r: bool)
        ensures
            r == self.is_done_spec(),
    {
        self.row >= self.seq_len
    }

    pub fn needs_query(&self) -> (r: bool)
        ensures
            r == self.needs_query_spec(),
    {
        self.row < self.seq_len && self.query.is_none()
    }

    /// Holds `q`, the query scalar of the row that starts.
    pub fn hold_query(&mut self, q: A)
        requires
            old(self).wf(),
            old(self).needs_query_spec(),
        ensures
            final(self).wf(),
            *final(self) == (QKTExp { query: Some(q), ..*old(self) }),
    {
        self.query = Some(q);
    }

    /// Consumes the next key scalar `kt` at logical time `now` and emits
    /// `exp(q * kt)`. A failed product or exponential is a domain error and
    /// leaves the actor as it was.
    pub fn consume(&mut self, kt: A, now: u64) -> (r: Result<Emission<A>, ActorError>)
        requires
            old(self).wf(),
            !old(self).is_done_spec(),
            old(self).query is Some,
        ensures
            final(self).wf(),
            match r {
                Ok(e) => {
                    &&& exp_of_product(old(self).query.unwrap(), kt, Some(e.value))
                    &&& e.ready_time == old(self).pacer.ready_time(now)
                    &&& *final(self) == old(self).after(now)
                },
                Err(err) => {
                    &&& err == ActorError::DomainError
                    &&& exp_of_product(old(self).query.unwrap(), kt, None)
                    &&& *final(self) == *old(self)
                },
            },
    {
        let q = self.query.unwrap();
        let v = match exp_product(q, kt) {
            Some(v) => v,
            None => {
                return Err(ActorError::DomainError);
            },
        };
        let ready = self.pacer.issue(now);
        if self.col + 1 == self.seq_len {
            self.col = 0;
            self.row = self.row + 1;
            self.query = None;
        } else {
            self.col = self.col + 1;
        }
        Ok(Emission { value: v, ready_time: ready })
    }

    /// An input stream has ended: a protocol violation unless every row is complete.
    pub fn input_ended(&self) -> (r: Result<(), ActorError>)
        ensures
            r is Ok <==> self.is_done_spec(),
            r is Err ==> r == Err::<(), ActorError>(ActorError::ProtocolViolation),
    {
        if self.row >= self.seq_len {
            Ok(())
        } else {
            Err(ActorError::ProtocolViolation)
        }
    }
}

} // verus!
