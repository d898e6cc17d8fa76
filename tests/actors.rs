use streamattn::{
    all_ready, ActorError, Arith, Binary, BinaryOp, BinaryOpType, Emission, MatVecProd, MinMax,
    Pacer, ReduceOp, ReduceOpType,
};

fn reduce_values(op: ReduceOpType, inner: u64, outer: u64, xs: &[i64]) -> Vec<i64> {
    let mut a = ReduceOp::<i64>::new(4, 1, inner, outer, op);
    let mut out = Vec::new();
    for (t, x) in xs.iter().enumerate() {
        if let Some(e) = a.consume(*x, t as u64).unwrap() {
            out.push(e.value);
        }
    }
    assert!(a.is_done());
    out
}

#[test]
fn reduce_sum_of_four_is_ten() {
    assert_eq!(reduce_values(ReduceOpType::Sum, 4, 1, &[1, 2, 3, 4]), vec![10]);
}

#[test]
fn reduce_max_of_four_is_five() {
    assert_eq!(reduce_values(ReduceOpType::Max, 4, 1, &[1, 5, 3, 2]), vec![5]);
}

#[test]
fn reduce_groups_are_folded_separately() {
    assert_eq!(reduce_values(ReduceOpType::Sum, 3, 2, &[1, 2, 3, 10, 20, 30]), vec![6, 60]);
    assert_eq!(reduce_values(ReduceOpType::Max, 2, 3, &[-4, -9, 7, 7, 0, -1]), vec![-4, 7, 0]);
}

#[test]
fn reduce_single_element_groups_pass_through() {
    let xs = [7, -3, 0, i64::MAX, i64::MIN];
    assert_eq!(reduce_values(ReduceOpType::Sum, 1, 5, &xs), xs.to_vec());
    assert_eq!(reduce_values(ReduceOpType::Max, 1, 5, &xs), xs.to_vec());
}

#[test]
fn reduce_emits_only_at_group_end_after_latency() {
    let mut a = ReduceOp::<u32>::new(23, 2, 3, 1, ReduceOpType::Sum);
    assert_eq!(a.consume(1, 0), Ok(None));
    assert_eq!(a.consume(2, 0), Ok(None));
    // Issued at 4 (two initiation intervals after the first), visible 23 later.
    assert_eq!(a.consume(3, 0), Ok(Some(Emission { value: 6, ready_time: 27 })));
    assert!(a.is_done());
    assert_eq!(a.input_ended(), Ok(()));
}

#[test]
fn reduce_sum_overflow_is_a_domain_error() {
    let mut a = ReduceOp::<u8>::new(1, 1, 2, 1, ReduceOpType::Sum);
    assert_eq!(a.consume(200, 0), Ok(None));
    assert_eq!(a.consume(100, 1), Err(ActorError::DomainError));
    assert_eq!(a.step, 1);
}

#[test]
fn input_ending_mid_group_is_a_protocol_violation() {
    let mut a = ReduceOp::<i32>::new(1, 1, 4, 2, ReduceOpType::Max);
    assert_eq!(a.input_ended(), Err(ActorError::ProtocolViolation));
    for x in [1, 2, 3] {
        a.consume(x, 0).unwrap();
    }
    assert_eq!(a.input_ended(), Err(ActorError::ProtocolViolation));
    let m = MatVecProd::<i32>::new(1, 1, 2, 1);
    assert_eq!(m.input_ended(), Err(ActorError::ProtocolViolation));
}

#[test]
fn broadcast_divide_by_two() {
    let mut b = Binary::<i64>::new(8, 1, 4, 1, BinaryOpType::Div);
    assert!(b.needs_scalar());
    b.hold_scalar(2);
    assert!(!b.needs_scalar());
    let out: Vec<i64> = [4, 6, 8, 10].iter().map(|x| b.consume(*x, 0).unwrap().value).collect();
    assert_eq!(out, vec![2, 3, 4, 5]);
    assert!(b.is_done());
}

#[test]
fn broadcast_emits_per_element_paced_by_interval() {
    let mut b = Binary::<i64>::new(8, 3, 2, 2, BinaryOpType::Sub);
    b.hold_scalar(10);
    assert_eq!(b.consume(15, 0), Ok(Emission { value: 5, ready_time: 8 }));
    assert_eq!(b.consume(20, 1), Ok(Emission { value: 10, ready_time: 11 }));
    assert!(b.needs_scalar());
    b.hold_scalar(-1);
    assert_eq!(b.consume(4, 100), Ok(Emission { value: 5, ready_time: 108 }));
    assert_eq!(b.input_ended(), Err(ActorError::ProtocolViolation));
}

#[test]
fn broadcast_zero_divisor_is_a_domain_error() {
    let mut b = Binary::<i64>::new(8, 1, 4, 1, BinaryOpType::Div);
    b.hold_scalar(0);
    assert_eq!(b.consume(4, 0), Err(ActorError::DomainError));
    assert_eq!(b.step, 0);
}

#[test]
fn paired_ops_apply_one_for_one() {
    let lhs = [9, 8, 7, 6];
    let rhs = [3, 2, 7, 1];
    for (op, expected) in [
        (BinaryOpType::Add, [12, 10, 14, 7]),
        (BinaryOpType::Sub, [6, 6, 0, 5]),
        (BinaryOpType::Mul, [27, 16, 49, 6]),
        (BinaryOpType::Div, [3, 4, 1, 6]),
    ] {
        let mut p = BinaryOp::<u16>::new(2, 1, 4, op);
        let out: Vec<u16> =
            lhs.iter().zip(rhs.iter()).map(|(a, b)| p.consume(*a, *b, 0).unwrap().value).collect();
        assert_eq!(out, expected.to_vec());
        assert!(p.is_done());
        assert_eq!(p.input_ended(), Ok(()));
    }
    let mut p = BinaryOp::<u16>::new(2, 1, 1, BinaryOpType::Div);
    assert_eq!(p.consume(1, 0, 0), Err(ActorError::DomainError));
    assert_eq!(p.input_ended(), Err(ActorError::ProtocolViolation));
}

#[test]
fn dot_product_per_group() {
    let mut m = MatVecProd::<i64>::new(13, 2, 3, 2);
    let a = [1, 2, 3, 4, 5, 6];
    let b = [4, 5, 6, -1, 0, 2];
    let mut out = Vec::new();
    for k in 0..6 {
        if let Some(e) = m.consume(a[k], b[k], 0).unwrap() {
            out.push(e);
        }
    }
    assert_eq!(out, vec![
        Emission { value: 32, ready_time: 4 + 13 },
        Emission { value: 8, ready_time: 10 + 13 },
    ]);
}

#[test]
fn integer_arithmetic_is_checked() {
    assert_eq!(i32::apply(BinaryOpType::Add, 2, 3), Some(5));
    assert_eq!(i8::apply(BinaryOpType::Add, 100, 100), None);
    assert_eq!(u8::apply(BinaryOpType::Sub, 1, 2), None);
    assert_eq!(i64::apply(BinaryOpType::Div, -7, 2), Some(-3));
    assert_eq!(i64::apply(BinaryOpType::Div, i64::MIN, -1), None);
    assert_eq!(u64::apply(BinaryOpType::Mul, u64::MAX, 2), None);
    assert_eq!(u32::apply(BinaryOpType::Div, 7, 0), None);
}

#[test]
fn integer_fold_identities() {
    assert_eq!(i16::get_min_val(), i16::MIN);
    assert_eq!(u64::get_min_val(), 0);
    assert_eq!(i32::get_zero(), 0);
    assert_eq!(5i8.get_max(-3), 5);
    assert_eq!(3u16.get_max(9), 9);
    assert_eq!(i64::get_min_val().get_max(-42), -42);
}

#[test]
fn pacer_keeps_the_initiation_interval() {
    let mut p = Pacer::new(5, 4);
    assert_eq!(p.issue(0), 5);
    assert_eq!(p.next_issue, 4);
    // Asked too early: issued at the interval's end.
    assert_eq!(p.issue(1), 9);
    // Asked late: issued when asked.
    assert_eq!(p.issue(20), 25);
    let mut late = Pacer::new(u64::MAX, 1);
    assert_eq!(late.issue(3), u64::MAX);
}

#[test]
fn broadcast_commits_only_when_every_target_is_ready() {
    assert!(all_ready(&[]));
    assert!(all_ready(&[true, true, true]));
    assert!(!all_ready(&[true, false, true]));
    assert!(!all_ready(&[false]));
}

#[test]
fn reduce_with_no_groups_is_done_at_once() {
    let a = ReduceOp::<i64>::new(1, 1, 3, 0, ReduceOpType::Sum);
    assert!(a.is_done());
    assert_eq!(a.input_ended(), Ok(()));
}
