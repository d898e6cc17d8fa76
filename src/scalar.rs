//! What the actors need of their element type: ordering, arithmetic and
//! an exponential, each a trait whose impls state their own results. The
//! actors' contracts speak of those results through `call_ensures`, so they
//! are exact for every type whose impls are (the integer types below).
use vstd::prelude::*;

verus! {

/// The four elementwise operators of the binary actors.
#[derive(Clone, Copy, Debug, PartialEq, Eq, Structural)]
pub enum BinaryOpType {
    Add,
    Sub,
    Div,
    Mul,
}

/// Ordering capabilities of a stream element type: a maximum, the identity of
/// the max fold (the most negative value) and the identity of the sum fold.
/// The integer types have it here; a floating-point type gets it where its
/// arithmetic lives, outside this crate.
pub trait MinMax: Sized + Copy {
    fn get_max(self, rhs: Self) -> Self;

    fn get_min_val() -> Self;

    fn get_zero() -> Self;
}

/// Elementwise arithmetic of a stream element type. `None` reports a domain
/// error: a zero divisor, or a result the type cannot represent.
pub trait Arith: Sized + Copy {
    fn apply(op: BinaryOpType, lhs: Self, rhs: Self) -> Option<Self>;
}

/// The exponential of a stream element type. `None` reports an overflow.
pub trait Exp: Sized + Copy {
    fn exp(self) -> Option<Self>;
}

/// The result that `A::apply` may return for `(op, lhs, rhs)`.
pub open spec fn applies<A: Arith>(op: BinaryOpType, lhs: A, rhs: A, r: Option<A>) -> bool {
    call_ensures(A::apply, (op, lhs, rhs), r)
}

/// The result that `A::get_max` may return for `(lhs, rhs)`.
pub open spec fn maxes<A: MinMax>(lhs: A, rhs: A, r: A) -> bool {
    call_ensures(A::get_max, (lhs, rhs), r)
}

/// The result that `A::exp` may return for `x`.
pub open spec fn exps<A: Exp>(x: A, r: Option<A>) -> bool {
    call_ensures(A::exp, (x,), r)
}

/// Fallible composition: `r` is `rhs_op(lhs_op(a, b), c)`, or `None` where either fails.
pub open spec fn applies_then<A: Arith>(
    lhs_op: BinaryOpType,
    a: A,
    b: A,
    rhs_op: BinaryOpType,
    c: A,
    r: Option<A>,
) -> bool {
    ||| applies(lhs_op, a, b, None) && r is None
    ||| exists|t: A| #[trigger] applies(lhs_op, a, b, Some(t)) && applies(rhs_op, t, c, r)
}

/// `r` is `exp(a - b)`, or `None` where either step fails.
pub open spec fn exp_of_difference<A: Arith + Exp>(a: A, b: A, r: Option<A>) -> bool {
    ||| applies(BinaryOpType::Sub, a, b, None) && r is None
    ||| exists|t: A| #[trigger] applies(BinaryOpType::Sub, a, b, Some(t)) && exps(t, r)
}

/// `r` is `exp(a * b)`, or `None` where either step fails.
pub open spec fn exp_of_product<A: Arith + Exp>(a: A, b: A, r: Option<A>) -> bool {
    ||| applies(BinaryOpType::Mul, a, b, None) && r is None
    ||| exists|t: A| #[trigger] applies(BinaryOpType::Mul, a, b, Some(t)) && exps(t, r)
}

/// `r` is `acc + a * b`, or `None` where either step fails.
pub open spec fn accumulates<A: Arith>(acc: A, a: A, b: A, r: Option<A>) -> bool {
    ||| applies(BinaryOpType::Mul, a, b, None) && r is None
    ||| exists|p: A| #[trigger] applies(BinaryOpType::Mul, a, b, Some(p)) && applies(BinaryOpType::Add, acc, p, r)
}

/// `acc + a * b`, stopping at the first failure.
pub fn multiply_accumulate<A: Arith>(acc: A, a: A, b: A) -> (r: Option<A>)
    ensures
        accumulates(acc, a, b, r),
{
    match A::apply(BinaryOpType::Mul, a, b) {
        None => None,
        Some(p) => {
            let r = A::apply(BinaryOpType::Add, acc, p);
            assert(applies(BinaryOpType::Mul, a, b, Some(p)));
            r
        },
    }
}

/// Whether `A::apply` is a function of its operands: two results for the same
/// operands are equal.
pub open spec fn arithmetic_is_functional<A: Arith>() -> bool {
    forall|op: BinaryOpType, a: A, b: A, r1: Option<A>, r2: Option<A>|
        #[trigger] applies(op, a, b, r1) && #[trigger] applies(op, a, b, r2) ==> r1 == r2
}

/// Whether `A::get_max` is a function of its operands.
pub open spec fn max_is_functional<A: MinMax>() -> bool {
    forall|a: A, b: A, r1: A, r2: A| #[trigger] maxes(a, b, r1) && #[trigger] maxes(a, b, r2) ==> r1 == r2
}

/// Whether `A::exp` is a function of its operand.
pub open spec fn exp_is_functional<A: Exp>() -> bool {
    forall|x: A, r1: Option<A>, r2: Option<A>| #[trigger] exps(x, r1) && #[trigger] exps(x, r2) ==> r1 == r2
}

/// Composing two operations of functional arithmetic gives one result.
pub proof fn lemma_applies_then_functional<A: Arith>(
    lhs_op: BinaryOpType,
    a: A,
    b: A,
    rhs_op: BinaryOpType,
    c: A,
    r1: Option<A>,
    r2: Option<A>,
)
    requires
        arithmetic_is_functional::<A>(),
        applies_then(lhs_op, a, b, rhs_op, c, r1),
        applies_then(lhs_op, a, b, rhs_op, c, r2),
    ensures
        r1 == r2,
{
}

/// `acc + a * b` has one result under functional arithmetic.
pub proof fn lemma_accumulates_functional<A: Arith>(acc: A, a: A, b: A, r1: Option<A>, r2: Option<A>)
    requires
        arithmetic_is_functional::<A>(),
        accumulates(acc, a, b, r1),
        accumulates(acc, a, b, r2),
    ensures
        r1 == r2,
{
}

/// `exp(a - b)` has one result under functional arithmetic and exponential.
pub proof fn lemma_exp_of_difference_functional<A: Arith + Exp>(a: A, b: A, r1: Option<A>, r2: Option<A>)
    requires
        arithmetic_is_functional::<A>(),
        exp_is_functional::<A>(),
        exp_of_difference(a, b, r1),
        exp_of_difference(a, b, r2),
    ensures
        r1 == r2,
{
}

/// Arithmetic and maximum are functions for the integer element types.
pub proof fn lemma_integer_operations_are_functional()
    ensures
        arithmetic_is_functional::<u8>() && max_is_functional::<u8>(),
        arithmetic_is_functional::<u16>() && max_is_functional::<u16>(),
        arithmetic_is_functional::<u32>() && max_is_functional::<u32>(),
        arithmetic_is_functional::<u64>() && max_is_functional::<u64>(),
        arithmetic_is_functional::<i8>() && max_is_functional::<i8>(),
        arithmetic_is_functional::<i16>() && max_is_functional::<i16>(),
        arithmetic_is_functional::<i32>() && max_is_functional::<i32>(),
        arithmetic_is_functional::<i64>() && max_is_functional::<i64>(),
{
}

/// Applies `lhs_op` then `rhs_op`, stopping at the first failure.
pub fn apply_then<A: Arith>(lhs_op: BinaryOpType, a: A, b: A, rhs_op: BinaryOpType, c: A) -> (r:
    Option<A>)
    ensures
        applies_then(lhs_op, a, b, rhs_op, c, r),
{
    match A::apply(lhs_op, a, b) {
        None => None,
        Some(t) => {
            let r = A::apply(rhs_op, t, c);
            assert(applies(lhs_op, a, b, Some(t)));
            r
        },
    }
}

/// `exp(a - b)`, stopping at the first failure.
pub fn exp_difference<A: Arith + Exp>(a: A, b: A) -> (r: Option<A>)
    ensures
        exp_of_difference(a, b, r),
{
    match A::apply(BinaryOpType::Sub, a, b) {
        None => None,
        Some(t) => {
            let r = t.exp();
            assert(applies(BinaryOpType::Sub, a, b, Some(t)));
            r
        },
    }
}

/// `exp(a * b)`, stopping at the first failure.
pub fn exp_product<A: Arith + Exp>(a: A, b: A) -> (r: Option<A>)
    ensures
        exp_of_product(a, b, r),
{
    match A::apply(BinaryOpType::Mul, a, b) {
        None => None,
        Some(t) => {
            let r = t.exp();
            assert(applies(BinaryOpType::Mul, a, b, Some(t)));
            r
        },
    }
}

impl MinMax for u8 {
    fn get_max(self, rhs: u8) -> (r: u8)
        ensures
            r == (if self >= rhs { self } else { rhs }),
    {
        if self >= rhs {
            self
        } else {
            rhs
        }
    }

    fn get_min_val() -> (r: u8)
        ensures
            r == u8::MIN,
    {
        u8::MIN
    }

    fn get_zero() -> (r: u8)
        ensures
            r == 0,
    {
        0
    }
}

impl Arith for u8 {
    fn apply(op: BinaryOpType, lhs: u8, rhs: u8) -> (r: Option<u8>)
        ensures
            r == (match op {
                BinaryOpType::Add => lhs.checked_add(rhs),
                BinaryOpType::Sub => lhs.checked_sub(rhs),
                BinaryOpType::Mul => lhs.checked_mul(rhs),
                BinaryOpType::Div => lhs.checked_div(rhs),
            }),
            op == BinaryOpType::Div && rhs == 0 ==> r is None,
    {
        match op {
            BinaryOpType::Add => lhs.checked_add(rhs),
            BinaryOpType::Sub => lhs.checked_sub(rhs),
            BinaryOpType::Mul => lhs.checked_mul(rhs),
            BinaryOpType::Div => lhs.checked_div(rhs),
        }
    }
}

impl MinMax for u16 {
    fn get_max(self, rhs: u16) -> (r: u16)
        ensures
            r == (if self >= rhs { self } else { rhs }),
    {
        if self >= rhs {
            self
        } else {
            rhs
        }
    }

    fn get_min_val() -> (r: u16)
        ensures
            r == u16::MIN,
    {
        u16::MIN
    }

    fn get_zero() -> (r: u16)
        ensures
            r == 0,
    {
        0
    }
}

impl Arith for u16 {
    fn apply(op: BinaryOpType, lhs: u16, rhs: u16) -> (r: Option<u16>)
        ensures
            r == (match op {
                BinaryOpType::Add => lhs.checked_add(rhs),
                BinaryOpType::Sub => lhs.checked_sub(rhs),
                BinaryOpType::Mul => lhs.checked_mul(rhs),
                BinaryOpType::Div => lhs.checked_div(rhs),
            }),
            op == BinaryOpType::Div && rhs == 0 ==> r is None,
    {
        match op {
            BinaryOpType::Add => lhs.checked_add(rhs),
            BinaryOpType::Sub => lhs.checked_sub(rhs),
            BinaryOpType::Mul => lhs.checked_mul(rhs),
            BinaryOpType::Div => lhs.checked_div(rhs),
        }
    }
}

impl MinMax for u32 {
    fn get_max(self, rhs: u32) -> (r: u32)
        ensures
            r == (if self >= rhs { self } else { rhs }),
    {
        if self >= rhs {
            self
        } else {
            rhs
        }
    }

    fn get_min_val() -> (r: u32)
        ensures
            r == u32::MIN,
    {
        u32::MIN
    }

    fn get_zero() -> (r: u32)
        ensures
            r == 0,
    {
        0
    }
}

impl Arith for u32 {
    fn apply(op: BinaryOpType, lhs: u32, rhs: u32) -> (r: Option<u32>)
        ensures
            r == (match op {
                BinaryOpType::Add => lhs.checked_add(rhs),
                BinaryOpType::Sub => lhs.checked_sub(rhs),
                BinaryOpType::Mul => lhs.checked_mul(rhs),
                BinaryOpType::Div => lhs.checked_div(rhs),
            }),
            op == BinaryOpType::Div && rhs == 0 ==> r is None,
    {
        match op {
            BinaryOpType::Add => lhs.checked_add(rhs),
            BinaryOpType::Sub => lhs.checked_sub(rhs),
            BinaryOpType::Mul => lhs.checked_mul(rhs),
            BinaryOpType::Div => lhs.checked_div(rhs),
        }
    }
}

impl MinMax for u64 {
    fn get_max(self, rhs: u64) -> (r: u64)
        ensures
            r == (if self >= rhs { self } else { rhs }),
    {
        if self >= rhs {
            self
        } else {
            rhs
        }
    }

    fn get_min_val() -> (r: u64)
        ensures
            r == u64::MIN,
    {
        u64::MIN
    }

    fn get_zero() -> (r: u64)
        ensures
            r == 0,
    {
        0
    }
}

impl Arith for u64 {
    fn apply(op: BinaryOpType, lhs: u64, rhs: u64) -> (r: Option<u64>)
        ensures
            r == (match op {
                BinaryOpType::Add => lhs.checked_add(rhs),
                BinaryOpType::Sub => lhs.checked_sub(rhs),
                BinaryOpType::Mul => lhs.checked_mul(rhs),
                BinaryOpType::Div => lhs.checked_div(rhs),
            }),
            op == BinaryOpType::Div && rhs == 0 ==> r is None,
    {
        match op {
            BinaryOpType::Add => lhs.checked_add(rhs),
            BinaryOpType::Sub => lhs.checked_sub(rhs),
            BinaryOpType::Mul => lhs.checked_mul(rhs),
            BinaryOpType::Div => lhs.checked_div(rhs),
        }
    }
}

impl MinMax for i8 {
    fn get_max(self, rhs: i8) -> (r: i8)
        ensures
            r == (if self >= rhs { self } else { rhs }),
    {
        if self >= rhs {
            self
        } else {
            rhs
        }
    }

    fn get_min_val() -> (r: i8)
        ensures
            r == i8::MIN,
    {
        i8::MIN
    }

    fn get_zero() -> (r: i8)
        ensures
            r == 0,
    {
        0
    }
}

impl Arith for i8 {
    fn apply(op: BinaryOpType, lhs: i8, rhs: i8) -> (r: Option<i8>)
        ensures
            r == (match op {
                BinaryOpType::Add => lhs.checked_add(rhs),
                BinaryOpType::Sub => lhs.checked_sub(rhs),
                BinaryOpType::Mul => lhs.checked_mul(rhs),
                BinaryOpType::Div => lhs.checked_div(rhs),
            }),
            op == BinaryOpType::Div && rhs == 0 ==> r is None,
    {
        match op {
            BinaryOpType::Add => lhs.checked_add(rhs),
            BinaryOpType::Sub => lhs.checked_sub(rhs),
            BinaryOpType::Mul => lhs.checked_mul(rhs),
            BinaryOpType::Div => lhs.checked_div(rhs),
        }
    }
}

impl MinMax for i16 {
    fn get_max(self, rhs: i16) -> (r: i16)
        ensures
            r == (if self >= rhs { self } else { rhs }),
    {
        if self >= rhs {
            self
        } else {
            rhs
        }
    }

    fn get_min_val() -> (r: i16)
        ensures
            r == i16::MIN,
    {
        i16::MIN
    }

    fn get_zero() -> (r: i16)
        ensures
            r == 0,
    {
        0
    }
}

impl Arith for i16 {
    fn apply(op: BinaryOpType, lhs: i16, rhs: i16) -> (r: Option<i16>)
        ensures
            r == (match op {
                BinaryOpType::Add => lhs.checked_add(rhs),
                BinaryOpType::Sub => lhs.checked_sub(rhs),
                BinaryOpType::Mul => lhs.checked_mul(rhs),
                BinaryOpType::Div => lhs.checked_div(rhs),
            }),
            op == BinaryOpType::Div && rhs == 0 ==> r is None,
    {
        match op {
            BinaryOpType::Add => lhs.checked_add(rhs),
            BinaryOpType::Sub => lhs.checked_sub(rhs),
            BinaryOpType::Mul => lhs.checked_mul(rhs),
            BinaryOpType::Div => lhs.checked_div(rhs),
        }
    }
}

impl MinMax for i32 {
    fn get_max(self, rhs: i32) -> (r: i32)
        ensures
            r == (if self >= rhs { self } else { rhs }),
    {
        if self >= rhs {
            self
        } else {
            rhs
        }
    }

    fn get_min_val() -> (r: i32)
        ensures
            r == i32::MIN,
    {
        i32::MIN
    }

    fn get_zero() -> (r: i32)
        ensures
            r == 0,
    {
        0
    }
}

impl Arith for i32 {
    fn apply(op: BinaryOpType, lhs: i32, rhs: i32) -> (r: Option<i32>)
        ensures
            r == (match op {
                BinaryOpType::Add => lhs.checked_add(rhs),
                BinaryOpType::Sub => lhs.checked_sub(rhs),
                BinaryOpType::Mul => lhs.checked_mul(rhs),
                BinaryOpType::Div => lhs.checked_div(rhs),
            }),
            op == BinaryOpType::Div && rhs == 0 ==> r is None,
    {
        match op {
            BinaryOpType::Add => lhs.checked_add(rhs),
            BinaryOpType::Sub => lhs.checked_sub(rhs),
            BinaryOpType::Mul => lhs.checked_mul(rhs),
            BinaryOpType::Div => lhs.checked_div(rhs),
        }
    }
}

impl MinMax for i64 {
    fn get_max(self, rhs: i64) -> (r: i64)
        ensures
            r == (if self >= rhs { self } else { rhs }),
    {
        if self >= rhs {
            self
        } else {
            rhs
        }
    }

    fn get_min_val() -> (r: i64)
        ensures
            r == i64::MIN,
    {
        i64::MIN
    }

    fn get_zero() -> (r: i64)
        ensures
            r == 0,
    {
        0
    }
}

impl Arith for i64 {
    fn apply(op: BinaryOpType, lhs: i64, rhs: i64) -> (r: Option<i64>)
        ensures
            r == (match op {
                BinaryOpType::Add => lhs.checked_add(rhs),
                BinaryOpType::Sub => lhs.checked_sub(rhs),
                BinaryOpType::Mul => lhs.checked_mul(rhs),
                BinaryOpType::Div => lhs.checked_div(rhs),
            }),
            op == BinaryOpType::Div && rhs == 0 ==> r is None,
    {
        match op {
            BinaryOpType::Add => lhs.checked_add(rhs),
            BinaryOpType::Sub => lhs.checked_sub(rhs),
            BinaryOpType::Mul => lhs.checked_mul(rhs),
            BinaryOpType::Div => lhs.checked_div(rhs),
        }
    }
}

} // verus!
